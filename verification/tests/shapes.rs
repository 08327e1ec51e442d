use juicy_main::model::{path_name_is, type_is_string, type_is_string_pair, Ty};
use juicy_main::shape::{match_args_shape, match_env_shape, ArgsKind, EnvKind};

fn named(name: &str) -> Ty {
    Ty::Path { name: name.to_string(), generics: None }
}

fn generic(name: &str, args: Vec<Ty>) -> Ty {
    Ty::Path { name: name.to_string(), generics: Some(args) }
}

fn string_ty() -> Ty {
    named("String")
}

fn string_pair() -> Ty {
    Ty::Tuple(vec![string_ty(), string_ty()])
}

fn ref_slice(elem: Ty) -> Ty {
    Ty::Reference(Box::new(Ty::Slice(Box::new(elem))))
}

#[test]
fn string_like_is_judged_by_final_segment_name() {
    assert!(type_is_string(&string_ty()));
    assert!(type_is_string(&generic("String", vec![named("T")])));
    assert!(!type_is_string(&named("MyString")));
    assert!(!type_is_string(&named("str")));
    assert!(!type_is_string(&Ty::Other));
}

#[test]
fn string_pair_needs_exactly_two_string_elements() {
    assert!(type_is_string_pair(&string_pair()));
    assert!(!type_is_string_pair(&Ty::Tuple(vec![string_ty()])));
    assert!(!type_is_string_pair(&Ty::Tuple(vec![string_ty(), named("i32")])));
    assert!(!type_is_string_pair(&Ty::Tuple(vec![string_ty(), string_ty(), string_ty()])));
    assert!(!type_is_string_pair(&string_ty()));
}

#[test]
fn path_name_matches_exact_text() {
    assert!(path_name_is(&named("Vars"), "Vars"));
    assert!(!path_name_is(&named("Vars"), "Args"));
    assert!(!path_name_is(&Ty::Other, "Vars"));
}

#[test]
fn env_slice_shape() {
    assert_eq!(match_env_shape(&ref_slice(string_pair())), Some(EnvKind::Slice));
    assert_eq!(match_env_shape(&ref_slice(string_ty())), None);
    assert_eq!(match_env_shape(&Ty::Reference(Box::new(string_pair()))), None);
}

#[test]
fn env_owned_shape() {
    assert_eq!(match_env_shape(&generic("Vec", vec![string_pair()])), Some(EnvKind::Owned));
    assert_eq!(match_env_shape(&generic("Vec", vec![string_ty()])), None);
    assert_eq!(match_env_shape(&generic("Vec", vec![string_pair(), string_pair()])), None);
    assert_eq!(match_env_shape(&named("Vec")), None);
}

#[test]
fn env_lazy_iterator_shape() {
    assert_eq!(match_env_shape(&named("Vars")), Some(EnvKind::LazyIterator));
    // The name alone decides, exactly as for every other shape probe.
    assert_eq!(match_env_shape(&generic("Vars", vec![named("T")])), Some(EnvKind::LazyIterator));
}

#[test]
fn env_mapping_shape() {
    assert_eq!(
        match_env_shape(&generic("HashMap", vec![string_ty(), string_ty()])),
        Some(EnvKind::Mapping)
    );
    assert_eq!(match_env_shape(&generic("HashMap", vec![string_ty(), named("i32")])), None);
    assert_eq!(match_env_shape(&generic("HashMap", vec![string_ty()])), None);
    assert_eq!(match_env_shape(&named("HashMap")), None);
}

#[test]
fn env_rejects_other_shapes() {
    assert_eq!(match_env_shape(&named("Foo")), None);
    assert_eq!(match_env_shape(&Ty::Other), None);
    assert_eq!(match_env_shape(&string_pair()), None);
}

#[test]
fn args_slice_shape() {
    assert_eq!(match_args_shape(&ref_slice(string_ty())), Some(ArgsKind::Slice));
    assert_eq!(match_args_shape(&ref_slice(named("i32"))), None);
    assert_eq!(match_args_shape(&Ty::Reference(Box::new(named("i32")))), None);
}

#[test]
fn args_owned_shape() {
    assert_eq!(match_args_shape(&generic("Vec", vec![string_ty()])), Some(ArgsKind::Owned));
    // A vector of anything else is still a named type: it falls through to
    // the parsed kind.
    assert_eq!(match_args_shape(&generic("Vec", vec![named("i32")])), Some(ArgsKind::Parsed));
}

#[test]
fn args_lazy_iterator_shape() {
    assert_eq!(match_args_shape(&named("Args")), Some(ArgsKind::LazyIterator));
    assert_eq!(match_args_shape(&generic("Args", vec![named("T")])), Some(ArgsKind::LazyIterator));
}

#[test]
fn args_any_other_named_type_is_parsed() {
    assert_eq!(match_args_shape(&named("MyCliStruct")), Some(ArgsKind::Parsed));
    assert_eq!(match_args_shape(&named("i32")), Some(ArgsKind::Parsed));
    assert_eq!(match_args_shape(&named("Vec")), Some(ArgsKind::Parsed));
}

#[test]
fn args_rejects_non_named_shapes() {
    assert_eq!(match_args_shape(&Ty::Other), None);
    assert_eq!(match_args_shape(&string_pair()), None);
    assert_eq!(match_args_shape(&Ty::Slice(Box::new(string_ty()))), None);
}

//! The signature parser: validation of the declared entry point and
//! classification of its parameters into the accumulated declaration record.

use vstd::prelude::*;

use crate::model::{Ty, str_eq};
use crate::shape::{ArgsKind, EnvKind, args_shape, env_shape, match_args_shape, match_env_shape};

verus! {

/// One declared parameter of the entry point.
#[derive(Debug)]
pub enum Param {
    /// A receiver-style parameter (`self` in any of its forms).
    Receiver,
    /// A plain typed parameter, kept as the shape of its declared type.
    Typed(Ty),
}

/// The declared entry-point signature: its name and its parameters in
/// source order.
#[derive(Debug)]
pub struct Signature {
    pub name: String,
    pub params: Vec<Param>,
}

/// Which synthesized value is passed first when calling the nested body:
/// the category of the first recognized parameter in source order, or
/// [`Order::Neither`] when the declaration has no recognized parameter.
#[derive(Clone, Copy, Debug, PartialEq, Eq, Structural)]
pub enum Order {
    EnvFirst,
    ArgsFirst,
    Neither,
}

/// The two parameter categories, used to report a duplicate.
#[derive(Clone, Copy, Debug, PartialEq, Eq, Structural)]
pub enum Category {
    Environment,
    Arguments,
}

/// A validation failure, located at the parameter (by its zero-based
/// position in the declaration) that caused it.
#[derive(Clone, Copy, Debug, PartialEq, Eq, Structural)]
pub enum TransformError {
    /// The declaration is not named `main`.
    InvalidEntryPointName,
    /// A receiver-style parameter was declared.
    SelfNotAccepted { param: usize },
    /// A second parameter classified into an already-occupied category.
    DuplicateCategory { category: Category, param: usize },
    /// A parameter type recognized by neither catalogue.
    UnrecognizedParameterType { param: usize },
    /// A parameter classified as [`ArgsKind::Parsed`] while the external
    /// command-line-parsing capability is disabled.
    ExternalParserDisabled { param: usize },
}

/// The parsed record of one entry-point declaration: at most one parameter
/// of each category, and the derived calling order.
#[derive(Clone, Copy, Debug, PartialEq, Eq)]
pub struct EntryPointDeclaration {
    pub environment_param: Option<EnvKind>,
    pub arguments_param: Option<ArgsKind>,
    pub order: Order,
}

/// Well-formedness of a declaration record: the order field is exactly what
/// the presence of the two optional slots allows.
pub open spec fn wf(d: EntryPointDeclaration) -> bool {
    &&& (d.order is Neither <==> (d.environment_param is None && d.arguments_param is None))
    &&& (d.order is EnvFirst ==> d.environment_param is Some)
    &&& (d.order is ArgsFirst ==> d.arguments_param is Some)
}

/// The record before any parameter has been seen.
pub open spec fn empty_declaration() -> EntryPointDeclaration {
    EntryPointDeclaration {
        environment_param: None,
        arguments_param: None,
        order: Order::Neither,
    }
}

/// One classification step: fold the parameter at position `idx` into the
/// record accumulated over the parameters to its left.  The environment
/// catalogue is tried first; a type recognized by both is an environment
/// parameter.
pub open spec fn classify_step(
    st: EntryPointDeclaration,
    p: Param,
    idx: usize,
    parsed_enabled: bool,
) -> Result<EntryPointDeclaration, TransformError> {
    match p {
        Param::Receiver => Err(TransformError::SelfNotAccepted { param: idx }),
        Param::Typed(t) => match env_shape(t) {
            Some(k) => if st.environment_param is Some {
                Err(
                    TransformError::DuplicateCategory {
                        category: Category::Environment,
                        param: idx,
                    },
                )
            } else {
                Ok(
                    EntryPointDeclaration {
                        environment_param: Some(k),
                        arguments_param: st.arguments_param,
                        order: if st.arguments_param is None {
                            Order::EnvFirst
                        } else {
                            st.order
                        },
                    },
                )
            },
            None => match args_shape(t) {
                Some(k) => if !parsed_enabled && k is Parsed {
                    Err(TransformError::ExternalParserDisabled { param: idx })
                } else if st.arguments_param is Some {
                    Err(
                        TransformError::DuplicateCategory {
                            category: Category::Arguments,
                            param: idx,
                        },
                    )
                } else {
                    Ok(
                        EntryPointDeclaration {
                            environment_param: st.environment_param,
                            arguments_param: Some(k),
                            order: if st.environment_param is None {
                                Order::ArgsFirst
                            } else {
                                st.order
                            },
                        },
                    )
                },
                None => Err(TransformError::UnrecognizedParameterType { param: idx }),
            },
        },
    }
}

/// The record (or first failure) after folding every parameter of the
/// sequence, left to right.
pub open spec fn parse_params(params: Seq<Param>, parsed_enabled: bool) -> Result<
    EntryPointDeclaration,
    TransformError,
>
    decreases params.len(),
{
    if params.len() == 0 {
        Ok(empty_declaration())
    } else {
        match parse_params(params.drop_last(), parsed_enabled) {
            Ok(st) => classify_step(
                st,
                params.last(),
                (params.len() - 1) as usize,
                parsed_enabled,
            ),
            Err(e) => Err(e),
        }
    }
}

/// What parsing a whole declared signature yields: the name must read
/// exactly `main`, then the parameters are classified left to right.
pub open spec fn spec_parse(sig: Signature, parsed_enabled: bool) -> Result<
    EntryPointDeclaration,
    TransformError,
> {
    if sig.name@ != "main"@ {
        Err(TransformError::InvalidEntryPointName)
    } else {
        parse_params(sig.params@, parsed_enabled)
    }
}

/// Classification preserves well-formedness of the accumulated record.
proof fn lemma_step_wf(st: EntryPointDeclaration, p: Param, idx: usize, parsed_enabled: bool)
    requires
        wf(st),
    ensures
        classify_step(st, p, idx, parsed_enabled) matches Ok(d) ==> wf(d),
{
}

/// Every record that parameter classification yields is well formed.
pub proof fn lemma_parse_params_wf(params: Seq<Param>, parsed_enabled: bool)
    ensures
        parse_params(params, parsed_enabled) matches Ok(d) ==> wf(d),
    decreases params.len(),
{
    if params.len() > 0 {
        lemma_parse_params_wf(params.drop_last(), parsed_enabled);
        if let Ok(st) = parse_params(params.drop_last(), parsed_enabled) {
            lemma_step_wf(st, params.last(), (params.len() - 1) as usize, parsed_enabled);
        }
    }
}

/// Every record that signature parsing yields is well formed.
pub proof fn lemma_parse_wf(sig: Signature, parsed_enabled: bool)
    ensures
        spec_parse(sig, parsed_enabled) matches Ok(d) ==> wf(d),
{
    lemma_parse_params_wf(sig.params@, parsed_enabled);
}

/// Once a prefix of the parameter list fails, the whole list fails the
/// same way: classification stops at the first offending parameter.
pub proof fn lemma_params_error_stops(params: Seq<Param>, parsed_enabled: bool, i: int)
    requires
        0 <= i < params.len(),
        parse_params(params.take(i + 1), parsed_enabled) is Err,
    ensures
        parse_params(params, parsed_enabled) == parse_params(params.take(i + 1), parsed_enabled),
    decreases params.len() - i,
{
    if i + 1 == params.len() {
        assert(params.take(i + 1) =~= params);
    } else {
        assert(params.take(i + 2).drop_last() =~= params.take(i + 1));
        lemma_params_error_stops(params, parsed_enabled, i + 1);
    }
}

/// One exec classification step, exactly as [`classify_step`] describes it.
fn classify_param(
    st: &EntryPointDeclaration,
    p: &Param,
    idx: usize,
    parsed_enabled: bool,
) -> (r: Result<EntryPointDeclaration, TransformError>)
    ensures
        r == classify_step(*st, *p, idx, parsed_enabled),
{
    match p {
        Param::Receiver => Err(TransformError::SelfNotAccepted { param: idx }),
        Param::Typed(t) => match match_env_shape(t) {
            Some(k) => {
                if st.environment_param.is_some() {
                    Err(
                        TransformError::DuplicateCategory {
                            category: Category::Environment,
                            param: idx,
                        },
                    )
                } else {
                    Ok(
                        EntryPointDeclaration {
                            environment_param: Some(k),
                            arguments_param: st.arguments_param,
                            order: if st.arguments_param.is_none() {
                                Order::EnvFirst
                            } else {
                                st.order
                            },
                        },
                    )
                }
            },
            None => match match_args_shape(t) {
                Some(k) => {
                    if !parsed_enabled && matches!(k, ArgsKind::Parsed) {
                        Err(TransformError::ExternalParserDisabled { param: idx })
                    } else if st.arguments_param.is_some() {
                        Err(
                            TransformError::DuplicateCategory {
                                category: Category::Arguments,
                                param: idx,
                            },
                        )
                    } else {
                        Ok(
                            EntryPointDeclaration {
                                environment_param: st.environment_param,
                                arguments_param: Some(k),
                                order: if st.environment_param.is_none() {
                                    Order::ArgsFirst
                                } else {
                                    st.order
                                },
                            },
                        )
                    }
                },
                None => Err(TransformError::UnrecognizedParameterType { param: idx }),
            },
        },
    }
}

/// Parse a declared entry-point signature into its declaration record, or
/// report the first validation failure, located at the offending parameter.
pub fn parse_entry_point(sig: &Signature, parsed_enabled: bool) -> (r: Result<
    EntryPointDeclaration,
    TransformError,
>)
    ensures
        r == spec_parse(*sig, parsed_enabled),
        r matches Ok(d) ==> wf(d),
{
    proof {
        lemma_parse_wf(*sig, parsed_enabled);
    }
    if !str_eq(sig.name.as_str(), "main") {
        return Err(TransformError::InvalidEntryPointName);
    }
    let mut decl = EntryPointDeclaration {
        environment_param: None,
        arguments_param: None,
        order: Order::Neither,
    };
    let n = sig.params.len();
    for i in 0..n
        invariant
            sig.name@ == "main"@,
            n == sig.params@.len(),
            parse_params(sig.params@.take(i as int), parsed_enabled) == Ok::<
                EntryPointDeclaration,
                TransformError,
            >(decl),
    {
        proof {
            assert(sig.params@.take(i + 1).drop_last() =~= sig.params@.take(i as int));
            assert(sig.params@.take(i + 1).last() == sig.params@[i as int]);
        }
        match classify_param(&decl, &sig.params[i], i, parsed_enabled) {
            Ok(d) => {
                decl = d;
            },
            Err(e) => {
                proof {
                    assert(parse_params(sig.params@.take(i + 1), parsed_enabled) == Err::<
                        EntryPointDeclaration,
                        TransformError,
                    >(e));
                    lemma_params_error_stops(sig.params@, parsed_enabled, i as int);
                }
                return Err(e);
            },
        }
    }
    proof {
        assert(sig.params@.take(n as int) =~= sig.params@);
    }
    Ok(decl)
}

} // verus!

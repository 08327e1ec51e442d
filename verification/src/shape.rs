//! The two shape catalogues: classification of a parameter type as an
//! environment input or as an arguments input.
//!
//! Each matcher is a non-failing probe: it maps a type shape to a recognized
//! kind or to `None`, and the signature parser resolves any ambiguity by
//! trying the environment catalogue first.

use vstd::prelude::*;

use crate::model::{Ty, is_string_like, is_string_pair, path_name_is, type_is_string,
    type_is_string_pair};

verus! {

/// The recognized shapes of an environment parameter.  Each variant maps to
/// exactly one initialization template.
#[derive(Clone, Copy, Debug, PartialEq, Eq, Structural)]
pub enum EnvKind {
    /// `&[(String, String)]`: a reference to a sequence of key-value pairs.
    Slice,
    /// `Vec<(String, String)>`: an owned sequence of key-value pairs.
    Owned,
    /// The bare named type `Vars`: an iterator of key-value pairs.
    LazyIterator,
    /// `HashMap<String, String>`: a key-unique string-to-string mapping.
    Mapping,
}

/// The recognized shapes of an arguments parameter.  Each variant maps to
/// exactly one initialization template.
#[derive(Clone, Copy, Debug, PartialEq, Eq, Structural)]
pub enum ArgsKind {
    /// `&[String]`: a reference to a sequence of strings.
    Slice,
    /// `Vec<String>`: an owned sequence of strings.
    Owned,
    /// The bare named type `Args`: an iterator of strings.
    LazyIterator,
    /// Any other named type, assumed to implement the external
    /// command-line-parsing capability; only legal when that capability is
    /// enabled for the build.
    Parsed,
}

/// The environment catalogue as a function of the type's shape.
pub open spec fn env_shape(t: Ty) -> Option<EnvKind> {
    match t {
        Ty::Reference(inner) => match *inner {
            Ty::Slice(elem) => if is_string_pair(*elem) {
                Some(EnvKind::Slice)
            } else {
                None
            },
            _ => None,
        },
        Ty::Path { name, generics } => if name@ == "Vars"@ {
            Some(EnvKind::LazyIterator)
        } else {
            match generics {
                Some(list) => if name@ == "Vec"@ && list@.len() == 1 && is_string_pair(list@[0]) {
                    Some(EnvKind::Owned)
                } else if name@ == "HashMap"@ && list@.len() == 2 && is_string_like(list@[0])
                    && is_string_like(list@[1]) {
                    Some(EnvKind::Mapping)
                } else {
                    None
                },
                None => None,
            }
        },
        _ => None,
    }
}

/// The arguments catalogue as a function of the type's shape.  Every named
/// type is recognized: one that matches no specific shape falls through to
/// [`ArgsKind::Parsed`].  A non-named type is not recognized.
pub open spec fn args_shape(t: Ty) -> Option<ArgsKind> {
    match t {
        Ty::Reference(inner) => match *inner {
            Ty::Slice(elem) => if is_string_like(*elem) {
                Some(ArgsKind::Slice)
            } else {
                None
            },
            _ => None,
        },
        Ty::Path { name, generics } => if name@ == "Args"@ {
            Some(ArgsKind::LazyIterator)
        } else {
            match generics {
                Some(list) => if name@ == "Vec"@ && list@.len() == 1 && is_string_like(list@[0]) {
                    Some(ArgsKind::Owned)
                } else {
                    Some(ArgsKind::Parsed)
                },
                None => Some(ArgsKind::Parsed),
            }
        },
        _ => None,
    }
}

/// Probe the environment catalogue.
pub fn match_env_shape(t: &Ty) -> (r: Option<EnvKind>)
    ensures
        r == env_shape(*t),
{
    match t {
        Ty::Reference(inner) => match &**inner {
            Ty::Slice(elem) => if type_is_string_pair(elem) {
                Some(EnvKind::Slice)
            } else {
                None
            },
            _ => None,
        },
        Ty::Path { name: _, generics } => {
            if path_name_is(t, "Vars") {
                Some(EnvKind::LazyIterator)
            } else {
                match generics {
                    Some(list) => {
                        if path_name_is(t, "Vec") && list.len() == 1
                            && type_is_string_pair(&list[0]) {
                            Some(EnvKind::Owned)
                        } else if path_name_is(t, "HashMap") && list.len() == 2
                            && type_is_string(&list[0]) && type_is_string(&list[1]) {
                            Some(EnvKind::Mapping)
                        } else {
                            None
                        }
                    },
                    None => None,
                }
            }
        },
        _ => None,
    }
}

/// Probe the arguments catalogue.
pub fn match_args_shape(t: &Ty) -> (r: Option<ArgsKind>)
    ensures
        r == args_shape(*t),
{
    match t {
        Ty::Reference(inner) => match &**inner {
            Ty::Slice(elem) => if type_is_string(elem) {
                Some(ArgsKind::Slice)
            } else {
                None
            },
            _ => None,
        },
        Ty::Path { name: _, generics } => {
            if path_name_is(t, "Args") {
                Some(ArgsKind::LazyIterator)
            } else {
                match generics {
                    Some(list) => {
                        if path_name_is(t, "Vec") && list.len() == 1 && type_is_string(&list[0]) {
                            Some(ArgsKind::Owned)
                        } else {
                            Some(ArgsKind::Parsed)
                        }
                    },
                    None => Some(ArgsKind::Parsed),
                }
            }
        },
        _ => None,
    }
}

} // verus!

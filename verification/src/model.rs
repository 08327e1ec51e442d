//! Structural model of a declared parameter type.
//!
//! Shape matching never resolves a type against its definition: it only
//! inspects the syntactic structure of the written type, so this model keeps
//! exactly the parts of the host type grammar that the matchers read and
//! collapses everything else into [`Ty::Other`].

use vstd::prelude::*;

verus! {

/// The syntactic shape of a type, as far as shape matching inspects it.
///
/// A named type keeps only the literal text of its final path segment and
/// its angle-bracketed generic argument list, if it has one.  A generic
/// argument that is not itself a type (a lifetime, a constant) is modelled
/// as [`Ty::Other`]; it still counts toward the argument list's length.
#[derive(Debug)]
pub enum Ty {
    /// A reference `&T` to some inner type.
    Reference(Box<Ty>),
    /// A slice `[T]` of some element type.
    Slice(Box<Ty>),
    /// A tuple `(T0, ..., Tn)` of element types.
    Tuple(Vec<Ty>),
    /// A named (path) type: the final path-segment name, and the
    /// angle-bracketed generic arguments when the segment has them.
    Path { name: String, generics: Option<Vec<Ty>> },
    /// Any other form of type (function pointer, raw pointer, array, ...).
    Other,
}

/// A type is string-like when it is a named type whose final path segment
/// reads literally `String`, whatever its generic arguments.  This is a
/// purely syntactic judgement: an alias or a colliding local name is matched
/// the same as the standard type.
pub open spec fn is_string_like(t: Ty) -> bool {
    t matches Ty::Path { name, .. } && name@ == "String"@
}

/// A 2-tuple of two string-like types: the shape of one environment entry.
pub open spec fn is_string_pair(t: Ty) -> bool {
    t matches Ty::Tuple(elems) && elems@.len() == 2 && is_string_like(elems@[0])
        && is_string_like(elems@[1])
}

/// Exact text comparison of two string slices.
pub(crate) fn str_eq(a: &str, b: &str) -> (r: bool)
    ensures
        r == (a@ == b@),
{
    let ao = a.to_owned();
    let bo = b.to_owned();
    ao == bo
}

/// Does this named type's final segment read exactly `name`?
pub fn path_name_is(t: &Ty, name: &str) -> (r: bool)
    ensures
        r == (t matches Ty::Path { name: n, .. } && n@ == name@),
{
    match t {
        Ty::Path { name: n, .. } => str_eq(n.as_str(), name),
        _ => false,
    }
}

/// Decide [`is_string_like`].
pub fn type_is_string(t: &Ty) -> (r: bool)
    ensures
        r == is_string_like(*t),
{
    path_name_is(t, "String")
}

/// Decide [`is_string_pair`].
pub fn type_is_string_pair(t: &Ty) -> (r: bool)
    ensures
        r == is_string_pair(*t),
{
    match t {
        Ty::Tuple(elems) => {
            elems.len() == 2 && type_is_string(&elems[0]) && type_is_string(&elems[1])
        },
        _ => false,
    }
}

} // verus!

//! Structural classification of a field's declared type.
//!
//! Classification looks only at the final path segment of the type's
//! syntactic name. This is a deliberate heuristic, not a type checker: a
//! user type that happens to be named like one of the recognized wrappers
//! is misclassified, an accepted design limitation. A wrapper match must
//! carry exactly one generic argument; anything else is a fatal
//! definition error.

use vstd::prelude::*;
use crate::model::{string_is, GenError, InnerType, TypeExpr, TypeExprV};

verus! {

/// The classification of a declared type.
#[derive(Debug, PartialEq, Eq)]
pub enum TypeShape {
    /// Neither wrapper name matched.
    Plain,
    /// The optional-value wrapper, with its single generic argument.
    Optional(InnerType),
    /// The growable-sequence wrapper, with its single generic argument.
    Repeated(InnerType),
}

/// The view of a [`TypeShape`].
pub enum TypeShapeV {
    Plain,
    Optional(Seq<char>),
    Repeated(Seq<char>),
}

impl View for TypeShape {
    type V = TypeShapeV;

    open spec fn view(&self) -> TypeShapeV {
        match self {
            TypeShape::Plain => TypeShapeV::Plain,
            TypeShape::Optional(t) => TypeShapeV::Optional(t@),
            TypeShape::Repeated(t) => TypeShapeV::Repeated(t@),
        }
    }
}

/// The name of the optional-value wrapper.
pub open spec fn option_name() -> Seq<char> {
    "Option"@
}

/// The name of the growable-sequence wrapper.
pub open spec fn vec_name() -> Seq<char> {
    "Vec"@
}

/// The final segment of a type's path, if the type is a path type.
pub open spec fn last_segment_of(ty: TypeExprV) -> Option<Seq<char>> {
    if ty.path.len() == 0 {
        None
    } else {
        Some(ty.path.last())
    }
}

/// Whether the type's final path segment is the optional-value wrapper.
pub open spec fn is_option_ty(ty: TypeExprV) -> bool {
    last_segment_of(ty) == Some(option_name())
}

/// Whether the type's final path segment is the growable-sequence wrapper.
pub open spec fn is_vec_ty(ty: TypeExprV) -> bool {
    last_segment_of(ty) == Some(vec_name())
}

/// The shape of a declared type; `None` when a wrapper name is matched
/// without exactly one generic argument (a fatal definition error).
pub open spec fn shape_of(ty: TypeExprV) -> Option<TypeShapeV> {
    if is_option_ty(ty) {
        if ty.args.len() == 1 {
            Some(TypeShapeV::Optional(ty.args[0]))
        } else {
            None
        }
    } else if is_vec_ty(ty) {
        if ty.args.len() == 1 {
            Some(TypeShapeV::Repeated(ty.args[0]))
        } else {
            None
        }
    } else {
        Some(TypeShapeV::Plain)
    }
}

/// The final segment of the type's path, or `None` for a non-path type.
pub fn last_path_segment(ty: &TypeExpr) -> (r: Option<&String>)
    ensures
        match r {
            Some(s) => last_segment_of(ty@) == Some(s@),
            None => last_segment_of(ty@) is None,
        },
{
    if ty.path.len() == 0 {
        None
    } else {
        let i = ty.path.len() - 1;
        assert(ty.path@.map(|j: int, s: String| s@).last() == ty.path@.map(
            |j: int, s: String| s@,
        )[i as int]);
        Some(&ty.path[i])
    }
}

/// Whether the declared type is the optional-value wrapper.
pub fn is_option_type(ty: &TypeExpr) -> (r: bool)
    ensures
        r == is_option_ty(ty@),
{
    match last_path_segment(ty) {
        Some(seg) => string_is(seg, "Option"),
        None => false,
    }
}

/// Whether the declared type is the growable-sequence wrapper.
pub fn is_vec_type(ty: &TypeExpr) -> (r: bool)
    ensures
        r == is_vec_ty(ty@),
{
    match last_path_segment(ty) {
        Some(seg) => string_is(seg, "Vec"),
        None => false,
    }
}

/// The sole generic argument of the type's final path segment, or `None`
/// when there is no such segment or not exactly one argument.
pub fn extract_inner_type(ty: &TypeExpr) -> (r: Option<InnerType>)
    ensures
        match r {
            Some(inner) => ty@.args.len() == 1 && inner@ == ty@.args[0],
            None => ty@.args.len() != 1,
        },
{
    if ty.args.len() == 1 {
        let text = ty.args[0].text.clone();
        assert(ty.args@.map(|j: int, a: InnerType| a@)[0] == ty.args@[0]@);
        Some(InnerType { text })
    } else {
        None
    }
}

/// Classifies a declared type, rejecting a wrapper match whose generic
/// argument list does not have exactly one element.
pub fn classify(ty: &TypeExpr) -> (r: Result<TypeShape, GenError>)
    ensures
        match r {
            Ok(shape) => shape_of(ty@) == Some(shape@),
            Err(e) => shape_of(ty@) is None && e == GenError::InvalidWrapperShape,
        },
{
    if is_option_type(ty) {
        match extract_inner_type(ty) {
            Some(inner) => Ok(TypeShape::Optional(inner)),
            None => Err(GenError::InvalidWrapperShape),
        }
    } else if is_vec_type(ty) {
        match extract_inner_type(ty) {
            Some(inner) => Ok(TypeShape::Repeated(inner)),
            None => Err(GenError::InvalidWrapperShape),
        }
    } else {
        Ok(TypeShape::Plain)
    }
}

} // verus!

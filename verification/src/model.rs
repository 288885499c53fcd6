//! The data model of a type definition: fields, declared types, annotations.
//!
//! These are plain-value stand-ins for the syntax tree the frontend parses.
//! A declared type keeps only what the generator reads of it: the segments
//! of its path, the generic arguments of the final segment, and its full
//! source text for emission. Everything else about the host language's type
//! grammar is deliberately out of scope.

use vstd::prelude::*;

verus! {

/// A generic argument of a wrapper type, opaque beyond its source text.
#[derive(Debug, PartialEq, Eq)]
pub struct InnerType {
    pub text: String,
}

impl View for InnerType {
    type V = Seq<char>;

    open spec fn view(&self) -> Seq<char> {
        self.text@
    }
}

/// A field's declared type.
///
/// `path` is empty when the type is not a plain (unqualified) path type;
/// such a type never matches a wrapper name. `args` are the generic
/// arguments of the final path segment. `text` is the type's source text,
/// used verbatim at emission and never inspected here.
#[derive(Debug, PartialEq, Eq)]
pub struct TypeExpr {
    pub path: Vec<String>,
    pub args: Vec<InnerType>,
    pub text: String,
}

/// The mathematical view of a [`TypeExpr`].
pub struct TypeExprV {
    pub path: Seq<Seq<char>>,
    pub args: Seq<Seq<char>>,
    pub text: Seq<char>,
}

impl View for TypeExpr {
    type V = TypeExprV;

    open spec fn view(&self) -> TypeExprV {
        TypeExprV {
            path: self.path@.map(|i: int, s: String| s@),
            args: self.args@.map(|i: int, a: InnerType| a@),
            text: self.text@,
        }
    }
}

/// The value of one nested entry of an annotation.
#[derive(Debug, PartialEq, Eq)]
pub enum AnnValue {
    /// A string literal.
    Text(String),
    /// Any other kind of value (a number, a nested list, ...).
    Other,
}

/// The view of an [`AnnValue`].
pub enum AnnValueV {
    Text(Seq<char>),
    Other,
}

impl View for AnnValue {
    type V = AnnValueV;

    open spec fn view(&self) -> AnnValueV {
        match self {
            AnnValue::Text(s) => AnnValueV::Text(s@),
            AnnValue::Other => AnnValueV::Other,
        }
    }
}

/// One nested `key = value` entry inside an annotation.
#[derive(Debug, PartialEq, Eq)]
pub struct AnnEntry {
    pub key: String,
    pub value: AnnValue,
}

/// The view of an [`AnnEntry`].
pub struct AnnEntryV {
    pub key: Seq<char>,
    pub value: AnnValueV,
}

impl View for AnnEntry {
    type V = AnnEntryV;

    open spec fn view(&self) -> AnnEntryV {
        AnnEntryV { key: self.key@, value: self.value@ }
    }
}

/// The body of an annotation: either a bare marker or a list of entries.
#[derive(Debug, PartialEq, Eq)]
pub enum AnnBody {
    Bare,
    Entries(Vec<AnnEntry>),
}

/// The view of an [`AnnBody`].
pub enum AnnBodyV {
    Bare,
    Entries(Seq<AnnEntryV>),
}

impl View for AnnBody {
    type V = AnnBodyV;

    open spec fn view(&self) -> AnnBodyV {
        match self {
            AnnBody::Bare => AnnBodyV::Bare,
            AnnBody::Entries(es) => AnnBodyV::Entries(es@.map(|i: int, e: AnnEntry| e@)),
        }
    }
}

/// One annotation attached to a field: a key and a body.
#[derive(Debug, PartialEq, Eq)]
pub struct Annotation {
    pub key: String,
    pub body: AnnBody,
}

/// The view of an [`Annotation`].
pub struct AnnotationV {
    pub key: Seq<char>,
    pub body: AnnBodyV,
}

impl View for Annotation {
    type V = AnnotationV;

    open spec fn view(&self) -> AnnotationV {
        AnnotationV { key: self.key@, body: self.body@ }
    }
}

/// One named field of a product type, in declaration order significant
/// to the whole generation pass.
#[derive(Debug, PartialEq, Eq)]
pub struct FieldSchema {
    pub name: String,
    pub ty: TypeExpr,
    pub annotations: Vec<Annotation>,
}

/// The view of a [`FieldSchema`].
pub struct FieldSchemaV {
    pub name: Seq<char>,
    pub ty: TypeExprV,
    pub annotations: Seq<AnnotationV>,
}

impl View for FieldSchema {
    type V = FieldSchemaV;

    open spec fn view(&self) -> FieldSchemaV {
        FieldSchemaV {
            name: self.name@,
            ty: self.ty@,
            annotations: self.annotations@.map(|i: int, a: Annotation| a@),
        }
    }
}

/// The body of a source type definition, as the frontend reports it.
#[derive(Debug, PartialEq, Eq)]
pub enum DefBody {
    /// A product type whose fields are all named: the only supported shape.
    NamedProduct(Vec<FieldSchema>),
    /// A product type with positional (unnamed) fields.
    PositionalProduct,
    /// A product type with no fields at all.
    UnitProduct,
    /// A sum type.
    SumType,
    /// An opaque product (an untagged overlay of fields).
    OpaqueType,
}

/// The view of a [`DefBody`].
pub enum DefBodyV {
    NamedProduct(Seq<FieldSchemaV>),
    PositionalProduct,
    UnitProduct,
    SumType,
    OpaqueType,
}

impl View for DefBody {
    type V = DefBodyV;

    open spec fn view(&self) -> DefBodyV {
        match self {
            DefBody::NamedProduct(fs) => DefBodyV::NamedProduct(
                fs@.map(|i: int, f: FieldSchema| f@),
            ),
            DefBody::PositionalProduct => DefBodyV::PositionalProduct,
            DefBody::UnitProduct => DefBodyV::UnitProduct,
            DefBody::SumType => DefBodyV::SumType,
            DefBody::OpaqueType => DefBodyV::OpaqueType,
        }
    }
}

/// A source type definition: its name and its body.
#[derive(Debug, PartialEq, Eq)]
pub struct Definition {
    pub name: String,
    pub body: DefBody,
}

/// Compares a string against a literal.
pub(crate) fn string_is(s: &String, lit: &str) -> (r: bool)
    ensures
        r == (s@ == lit@),
{
    let owned = String::from_str(lit);
    *s == owned
}

/// A fatal generation error: the definition cannot be processed at all.
#[derive(Clone, Copy, PartialEq, Eq, Structural, Debug)]
pub enum GenError {
    /// The definition is not a product type with named fields.
    UnsupportedShape,
    /// A wrapper type was matched without exactly one generic argument.
    InvalidWrapperShape,
}

} // verus!

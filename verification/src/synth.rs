//! Synthesis of the companion type's specification.
//!
//! For each field, the classified type shape and the parsed configuration
//! decide the field's storage, its initial value, and its setter surface;
//! the assembly operation checks required fields in declaration order. The
//! decision table is written down once, as spec functions, and the
//! executable synthesizer is proved to produce exactly that plan.

use vstd::prelude::*;
use crate::annot::{each_config_of, anns_view, parse_attr_each, EachConfig, EachConfigV};
use crate::classify::{classify, shape_of, TypeShape, TypeShapeV};
use crate::model::{DefBody, DefBodyV, Definition, FieldSchema, FieldSchemaV, GenError, InnerType};

verus! {

/// How a field is stored in the companion type.
#[derive(Clone, Copy, PartialEq, Eq, Structural, Debug)]
pub enum StoredType {
    /// The declared type itself (an already-optional field is not wrapped
    /// a second time).
    AsDeclared,
    /// The declared type wrapped in the optional-value container.
    OptionOfDeclared,
}

/// One storage field of the companion type.
#[derive(Debug, PartialEq, Eq)]
pub struct StorageField {
    pub name: String,
    pub stored: StoredType,
}

/// The view of a [`StorageField`].
pub struct StorageFieldV {
    pub name: Seq<char>,
    pub stored: StoredType,
}

impl View for StorageField {
    type V = StorageFieldV;

    open spec fn view(&self) -> StorageFieldV {
        StorageFieldV { name: self.name@, stored: self.stored }
    }
}

/// The initial value of one storage field of a fresh companion instance.
#[derive(Clone, Copy, PartialEq, Eq, Structural, Debug)]
pub enum InitValue {
    /// The field starts unset.
    Unset,
    /// The field starts as a present, empty sequence.
    EmptySequence,
}

/// One setter of the companion type's surface.
#[derive(Debug, PartialEq, Eq)]
pub enum SetterSpec {
    /// Stores the whole argument, replacing any previous value. The
    /// parameter is the field's declared type, carried as source text.
    Overwrite { field: usize, name: String, param_text: String },
    /// Takes the wrapped inner type and stores it as a present value,
    /// with overwrite semantics.
    WrapSet { field: usize, name: String, inner: InnerType },
    /// Pushes one element of the inner type, creating the sequence on
    /// first use.
    Append { field: usize, name: String, inner: InnerType },
    /// A placed diagnostic in place of a functional setter, anchored at
    /// the offending annotation of the field.
    Diagnostic { field: usize, annotation: usize, message: String },
}

/// The view of a [`SetterSpec`].
pub enum SetterSpecV {
    Overwrite { field: int, name: Seq<char>, param_text: Seq<char> },
    WrapSet { field: int, name: Seq<char>, inner: Seq<char> },
    Append { field: int, name: Seq<char>, inner: Seq<char> },
    Diagnostic { field: int, annotation: int, message: Seq<char> },
}

impl View for SetterSpec {
    type V = SetterSpecV;

    open spec fn view(&self) -> SetterSpecV {
        match self {
            SetterSpec::Overwrite { field, name, param_text } => SetterSpecV::Overwrite {
                field: *field as int,
                name: name@,
                param_text: param_text@,
            },
            SetterSpec::WrapSet { field, name, inner } => SetterSpecV::WrapSet {
                field: *field as int,
                name: name@,
                inner: inner@,
            },
            SetterSpec::Append { field, name, inner } => SetterSpecV::Append {
                field: *field as int,
                name: name@,
                inner: inner@,
            },
            SetterSpec::Diagnostic { field, annotation, message } => SetterSpecV::Diagnostic {
                field: *field as int,
                annotation: *annotation as int,
                message: message@,
            },
        }
    }
}

/// The field a setter belongs to.
pub open spec fn setter_field(s: SetterSpecV) -> int {
    match s {
        SetterSpecV::Overwrite { field, .. } => field,
        SetterSpecV::WrapSet { field, .. } => field,
        SetterSpecV::Append { field, .. } => field,
        SetterSpecV::Diagnostic { field, .. } => field,
    }
}

/// One step of the assembly operation, in declaration order.
#[derive(Debug, PartialEq, Eq)]
pub struct AsmStep {
    pub field: usize,
    pub name: String,
    pub required: bool,
}

/// The view of an [`AsmStep`].
pub struct AsmStepV {
    pub field: int,
    pub name: Seq<char>,
    pub required: bool,
}

impl View for AsmStep {
    type V = AsmStepV;

    open spec fn view(&self) -> AsmStepV {
        AsmStepV { field: self.field as int, name: self.name@, required: self.required }
    }
}

/// The synthesized specification of the companion type: storage layout,
/// initial state, setter surface and assembly steps, all in declaration
/// order of the fields.
#[derive(Debug, PartialEq, Eq)]
pub struct BuilderSpec {
    pub storage_fields: Vec<StorageField>,
    pub initial_values: Vec<InitValue>,
    pub setters: Vec<SetterSpec>,
    pub assembly: Vec<AsmStep>,
}

/// The view of a [`BuilderSpec`].
pub struct BuilderSpecV {
    pub storage_fields: Seq<StorageFieldV>,
    pub initial_values: Seq<InitValue>,
    pub setters: Seq<SetterSpecV>,
    pub assembly: Seq<AsmStepV>,
}

impl View for BuilderSpec {
    type V = BuilderSpecV;

    open spec fn view(&self) -> BuilderSpecV {
        BuilderSpecV {
            storage_fields: self.storage_fields@.map(|i: int, f: StorageField| f@),
            initial_values: self.initial_values@,
            setters: self.setters@.map(|i: int, s: SetterSpec| s@),
            assembly: self.assembly@.map(|i: int, a: AsmStep| a@),
        }
    }
}

/// The shape of a field's declared type.
pub open spec fn field_shape(f: FieldSchemaV) -> Option<TypeShapeV> {
    shape_of(f.ty)
}

/// The parsed configuration of a field.
pub open spec fn field_config(f: FieldSchemaV) -> EachConfigV {
    each_config_of(f.annotations)
}

/// Whether every field's declared type classifies without error.
pub open spec fn all_shapes_ok(fields: Seq<FieldSchemaV>) -> bool {
    forall|i: int| 0 <= i < fields.len() ==> #[trigger] field_shape(fields[i]) is Some
}

/// Storage of a field by its shape: an optional field keeps its declared
/// type, every other field is wrapped in the optional-value container.
pub open spec fn storage_of(shape: TypeShapeV) -> StoredType {
    if shape is Optional {
        StoredType::AsDeclared
    } else {
        StoredType::OptionOfDeclared
    }
}

/// Initial value of a field: a repeated field whose configuration
/// annotation is present (well formed or not) starts as a present empty
/// sequence; every other field starts unset.
pub open spec fn initial_of(shape: TypeShapeV, cfg: EachConfigV) -> InitValue {
    if shape is Repeated && !(cfg is NotRequested) {
        InitValue::EmptySequence
    } else {
        InitValue::Unset
    }
}

/// The fixed message of a malformed-configuration diagnostic.
pub open spec fn diagnostic_message() -> Seq<char> {
    "expected `builder(each = \"...\")`"@
}

/// The setters emitted for one field, given its shape. A malformed
/// configuration replaces the field's functional setters by a single
/// placed diagnostic. A repeated field with a configured append name
/// gets the append setter, and additionally the whole-sequence overwrite
/// setter unless the append name collides with the field's own name.
pub open spec fn setters_of(f: FieldSchemaV, i: int, shape: TypeShapeV) -> Seq<SetterSpecV> {
    match field_config(f) {
        EachConfigV::Malformed(a) => seq![
            SetterSpecV::Diagnostic { field: i, annotation: a, message: diagnostic_message() },
        ],
        EachConfigV::Present(each) => match shape {
            TypeShapeV::Repeated(t) => if each == f.name {
                seq![SetterSpecV::Append { field: i, name: each, inner: t }]
            } else {
                seq![
                    SetterSpecV::Append { field: i, name: each, inner: t },
                    SetterSpecV::Overwrite { field: i, name: f.name, param_text: f.ty.text },
                ]
            },
            TypeShapeV::Optional(t) => seq![
                SetterSpecV::WrapSet { field: i, name: f.name, inner: t },
            ],
            TypeShapeV::Plain => seq![
                SetterSpecV::Overwrite { field: i, name: f.name, param_text: f.ty.text },
            ],
        },
        EachConfigV::NotRequested => match shape {
            TypeShapeV::Optional(t) => seq![
                SetterSpecV::WrapSet { field: i, name: f.name, inner: t },
            ],
            _ => seq![
                SetterSpecV::Overwrite { field: i, name: f.name, param_text: f.ty.text },
            ],
        },
    }
}

/// The setters emitted for field `i` of the list.
pub open spec fn setters_at(fields: Seq<FieldSchemaV>, i: int) -> Seq<SetterSpecV> {
    setters_of(fields[i], i, field_shape(fields[i]).unwrap())
}

/// The storage layout of the companion type.
pub open spec fn storage_plan(fields: Seq<FieldSchemaV>) -> Seq<StorageFieldV> {
    Seq::new(
        fields.len(),
        |i: int| StorageFieldV {
            name: fields[i].name,
            stored: storage_of(field_shape(fields[i]).unwrap()),
        },
    )
}

/// The initial values of a fresh companion instance.
pub open spec fn initial_plan(fields: Seq<FieldSchemaV>) -> Seq<InitValue> {
    Seq::new(fields.len(), |i: int| initial_of(field_shape(fields[i]).unwrap(), field_config(fields[i])))
}

/// The setter surface of the companion type: the fields' setters,
/// concatenated in declaration order.
pub open spec fn setter_plan(fields: Seq<FieldSchemaV>) -> Seq<SetterSpecV>
    decreases fields.len(),
{
    if fields.len() == 0 {
        Seq::empty()
    } else {
        setter_plan(fields.drop_last()) + setters_at(fields, fields.len() - 1)
    }
}

/// The assembly steps, in declaration order: every non-optional field is
/// required.
pub open spec fn assembly_plan(fields: Seq<FieldSchemaV>) -> Seq<AsmStepV> {
    Seq::new(
        fields.len(),
        |i: int| AsmStepV {
            field: i,
            name: fields[i].name,
            required: !(field_shape(fields[i]).unwrap() is Optional),
        },
    )
}

/// The whole synthesized plan of the companion type.
pub open spec fn builder_plan(fields: Seq<FieldSchemaV>) -> BuilderSpecV {
    BuilderSpecV {
        storage_fields: storage_plan(fields),
        initial_values: initial_plan(fields),
        setters: setter_plan(fields),
        assembly: assembly_plan(fields),
    }
}

/// The view of a field list.
pub open spec fn fields_view(fields: Seq<FieldSchema>) -> Seq<FieldSchemaV> {
    fields.map(|i: int, f: FieldSchema| f@)
}

proof fn lemma_setter_plan_take(fields: Seq<FieldSchemaV>, n: int)
    requires
        0 <= n <= fields.len(),
    ensures
        setter_plan(fields.take(n)) + setters_at(fields, n) == setter_plan(
            fields.take(n + 1),
        ) || n == fields.len(),
{
    if n < fields.len() {
        let pre = fields.take(n + 1);
        assert(pre.drop_last() =~= fields.take(n));
        assert(pre.last() == fields[n]);
        assert(setters_at(pre, n) == setters_at(fields, n));
        assert(setter_plan(fields.take(n + 1)) == setter_plan(fields.take(n)) + setters_at(
            fields,
            n,
        ));
    }
}

/// Combines one field's shape and configuration into its setters, and
/// appends them to the plan being built.
fn synthesize_field_setters(f: &FieldSchema, i: usize, shape: &TypeShape, out: &mut Vec<SetterSpec>)
    ensures
        final(out)@.map(|k: int, s: SetterSpec| s@) == old(out)@.map(|k: int, s: SetterSpec| s@)
            + setters_of(f@, i as int, shape@),
{
    let ghost before = out@.map(|k: int, s: SetterSpec| s@);
    let cfg = parse_attr_each(&f.annotations);
    match cfg {
        EachConfig::Malformed(a) => {
            out.push(
                SetterSpec::Diagnostic {
                    field: i,
                    annotation: a,
                    message: String::from_str("expected `builder(each = \"...\")`"),
                },
            );
        },
        EachConfig::Present(each) => match shape {
            TypeShape::Repeated(t) => {
                let collides = each == f.name;
                let inner = InnerType { text: t.text.clone() };
                if collides {
                    out.push(SetterSpec::Append { field: i, name: each, inner });
                } else {
                    out.push(SetterSpec::Append { field: i, name: each, inner });
                    out.push(
                        SetterSpec::Overwrite {
                            field: i,
                            name: f.name.clone(),
                            param_text: f.ty.text.clone(),
                        },
                    );
                }
            },
            TypeShape::Optional(t) => {
                out.push(
                    SetterSpec::WrapSet {
                        field: i,
                        name: f.name.clone(),
                        inner: InnerType { text: t.text.clone() },
                    },
                );
            },
            TypeShape::Plain => {
                out.push(
                    SetterSpec::Overwrite {
                        field: i,
                        name: f.name.clone(),
                        param_text: f.ty.text.clone(),
                    },
                );
            },
        },
        EachConfig::NotRequested => match shape {
            TypeShape::Optional(t) => {
                out.push(
                    SetterSpec::WrapSet {
                        field: i,
                        name: f.name.clone(),
                        inner: InnerType { text: t.text.clone() },
                    },
                );
            },
            _ => {
                out.push(
                    SetterSpec::Overwrite {
                        field: i,
                        name: f.name.clone(),
                        param_text: f.ty.text.clone(),
                    },
                );
            },
        },
    }
    proof {
        assert(out@.map(|k: int, s: SetterSpec| s@) =~= before + setters_of(
            f@,
            i as int,
            shape@,
        ));
    }
}

/// Synthesizes the companion type's plan from the classified field list,
/// aborting on the first field whose declared type matches a wrapper name
/// without exactly one generic argument.
pub fn synthesize(fields: &Vec<FieldSchema>) -> (r: Result<BuilderSpec, GenError>)
    ensures
        match r {
            Ok(bs) => all_shapes_ok(fields_view(fields@)) && bs@ == builder_plan(
                fields_view(fields@),
            ),
            Err(e) => !all_shapes_ok(fields_view(fields@)) && e
                == GenError::InvalidWrapperShape,
        },
{
    let ghost fv = fields_view(fields@);
    let n = fields.len();
    let mut storage_fields: Vec<StorageField> = Vec::new();
    let mut initial_values: Vec<InitValue> = Vec::new();
    let mut setters: Vec<SetterSpec> = Vec::new();
    let mut assembly: Vec<AsmStep> = Vec::new();
    let mut i: usize = 0;
    while i < n
        invariant
            n == fields.len(),
            fv == fields_view(fields@),
            0 <= i <= n,
            forall|j: int| 0 <= j < i ==> #[trigger] field_shape(fv[j]) is Some,
            storage_fields@.map(|k: int, f: StorageField| f@) == storage_plan(fv.take(i as int)),
            initial_values@ == initial_plan(fv.take(i as int)),
            setters@.map(|k: int, s: SetterSpec| s@) == setter_plan(fv.take(i as int)),
            assembly@.map(|k: int, a: AsmStep| a@) == assembly_plan(fv.take(i as int)),
        decreases n - i,
    {
        let f = &fields[i];
        assert(f@ == fv[i as int]);
        let shape = match classify(&f.ty) {
            Ok(shape) => shape,
            Err(e) => {
                assert(field_shape(fv[i as int]) is None);
                return Err(e);
            },
        };
        let stored = match shape {
            TypeShape::Optional(_) => StoredType::AsDeclared,
            _ => StoredType::OptionOfDeclared,
        };
        let ghost sf_before = storage_fields@;
        storage_fields.push(StorageField { name: f.name.clone(), stored });
        let cfg = parse_attr_each(&f.annotations);
        let is_repeated = match shape {
            TypeShape::Repeated(_) => true,
            _ => false,
        };
        let requested = match cfg {
            EachConfig::NotRequested => false,
            _ => true,
        };
        let init = if is_repeated && requested {
            InitValue::EmptySequence
        } else {
            InitValue::Unset
        };
        initial_values.push(init);
        synthesize_field_setters(f, i, &shape, &mut setters);
        let required = match shape {
            TypeShape::Optional(_) => false,
            _ => true,
        };
        let ghost asm_before = assembly@;
        assembly.push(AsmStep { field: i, name: f.name.clone(), required });
        proof {
            lemma_setter_plan_take(fv, i as int);
            let sfm = storage_fields@.map(|k: int, f: StorageField| f@);
            let splan = storage_plan(fv.take(i as int + 1));
            assert(fv.len() == n);
            assert(sf_before.map(|k: int, f: StorageField| f@).len() == sf_before.len());
            assert(sf_before.len() == i as int);
            assert(storage_fields@.len() == i + 1);
            assert(sfm.len() == i + 1);
            assert forall|j: int| 0 <= j < i + 1 implies sfm[j] == splan[j] by {
                assert(sfm[j] == storage_fields@[j]@);
                if j < i {
                    assert(sf_before.map(|k: int, f: StorageField| f@)[j] == sf_before[j]@);
                    assert(storage_fields@[j] == sf_before[j]);
                    assert(sf_before[j]@ == storage_plan(fv.take(i as int))[j]);
                }
            }
            assert(sfm =~= splan);
            assert(initial_values@ =~= initial_plan(fv.take(i as int + 1)));
            let asmm = assembly@.map(|k: int, a: AsmStep| a@);
            let aplan = assembly_plan(fv.take(i as int + 1));
            assert(asm_before.map(|k: int, a: AsmStep| a@).len() == asm_before.len());
            assert(asm_before.len() == i as int);
            assert(assembly@.len() == i + 1);
            assert(asmm.len() == i + 1);
            assert forall|j: int| 0 <= j < i + 1 implies asmm[j] == aplan[j] by {
                assert(asmm[j] == assembly@[j]@);
                if j < i {
                    assert(asm_before.map(|k: int, a: AsmStep| a@)[j] == asm_before[j]@);
                    assert(assembly@[j] == asm_before[j]);
                    assert(asm_before[j]@ == assembly_plan(fv.take(i as int))[j]);
                }
            }
            assert(asmm =~= aplan);
        }
        i = i + 1;
    }
    proof {
        assert(fv.take(n as int) =~= fv);
    }
    Ok(BuilderSpec { storage_fields, initial_values, setters, assembly })
}

/// Accepts only a product type with named fields, the one supported shape;
/// any other definition aborts the whole generation.
pub fn extract_struct_fields(def: &Definition) -> (r: Result<&Vec<FieldSchema>, GenError>)
    ensures
        match r {
            Ok(fs) => def.body@ == DefBodyV::NamedProduct(fields_view(fs@)),
            Err(e) => !(def.body@ is NamedProduct) && e == GenError::UnsupportedShape,
        },
{
    match &def.body {
        DefBody::NamedProduct(fs) => Ok(fs),
        _ => Err(GenError::UnsupportedShape),
    }
}

/// Runs the whole generation pass: extraction, classification, annotation
/// parsing and synthesis, producing the companion type's plan or a fatal
/// error.
pub fn generate(def: &Definition) -> (r: Result<BuilderSpec, GenError>)
    ensures
        match r {
            Ok(bs) => {
                &&& def.body@ matches DefBodyV::NamedProduct(fs)
                &&& all_shapes_ok(fs)
                &&& bs@ == builder_plan(fs)
            },
            Err(e) => match e {
                GenError::UnsupportedShape => !(def.body@ is NamedProduct),
                GenError::InvalidWrapperShape => def.body@ matches DefBodyV::NamedProduct(fs)
                    && !all_shapes_ok(fs),
            },
        },
{
    let fields = extract_struct_fields(def)?;
    synthesize(fields)
}

} // verus!

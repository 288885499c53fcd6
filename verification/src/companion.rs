//! A verified model of the companion type's runtime behaviour.
//!
//! The synthesized plan fixes the companion type's storage, initial state,
//! setters and assembly checks. This module interprets such a plan over
//! concrete field values, so that the builder contract — monotonic
//! setters, ordered required-field checks, assembly that reads but never
//! clears the stored values — is stated and proved rather than asserted.

use vstd::prelude::*;
use vstd::pervasive::VecAdditionalExecFns;
use crate::synth::{setter_field, AsmStepV, BuilderSpec, BuilderSpecV, InitValue, SetterSpec};

verus! {

/// A scalar field value.
#[derive(Debug, PartialEq, Eq)]
pub enum Elem {
    Text(String),
    Int(u64),
}

/// The view of an [`Elem`].
pub enum ElemV {
    Text(Seq<char>),
    Int(u64),
}

impl View for Elem {
    type V = ElemV;

    open spec fn view(&self) -> ElemV {
        match self {
            Elem::Text(s) => ElemV::Text(s@),
            Elem::Int(n) => ElemV::Int(*n),
        }
    }
}

/// A field value: a scalar, or a growable sequence of scalars.
#[derive(Debug, PartialEq, Eq)]
pub enum Value {
    Single(Elem),
    Sequence(Vec<Elem>),
}

/// The view of a [`Value`].
pub enum ValueV {
    Single(ElemV),
    Sequence(Seq<ElemV>),
}

/// The view of a sequence of scalars.
pub open spec fn elems_view(es: Seq<Elem>) -> Seq<ElemV> {
    es.map(|i: int, e: Elem| e@)
}

impl View for Value {
    type V = ValueV;

    open spec fn view(&self) -> ValueV {
        match self {
            Value::Single(e) => ValueV::Single(e@),
            Value::Sequence(es) => ValueV::Sequence(elems_view(es@)),
        }
    }
}

/// The view of one storage slot.
pub open spec fn slot_view(o: Option<Value>) -> Option<ValueV> {
    match o {
        Option::None => None,
        Option::Some(v) => Some(v@),
    }
}

/// The view of the whole storage.
pub open spec fn slots_view(s: Seq<Option<Value>>) -> Seq<Option<ValueV>> {
    s.map(|i: int, o: Option<Value>| slot_view(o))
}

/// Copies a scalar.
fn clone_elem(e: &Elem) -> (r: Elem)
    ensures
        r@ == e@,
{
    match e {
        Elem::Text(s) => Elem::Text(s.clone()),
        Elem::Int(n) => Elem::Int(*n),
    }
}

/// Copies a field value.
fn clone_value(v: &Value) -> (r: Value)
    ensures
        r@ == v@,
{
    match v {
        Value::Single(e) => Value::Single(clone_elem(e)),
        Value::Sequence(es) => {
            let n = es.len();
            let mut out: Vec<Elem> = Vec::new();
            for i in 0..n
                invariant
                    n == es.len(),
                    out@.len() == i,
                    forall|j: int| 0 <= j < i ==> #[trigger] out@[j]@ == es@[j]@,
            {
                let e = clone_elem(&es[i]);
                out.push(e);
            }
            proof {
                assert(elems_view(out@) =~= elems_view(es@));
            }
            Value::Sequence(out)
        },
    }
}

/// Copies one storage slot.
fn clone_slot(o: &Option<Value>) -> (r: Option<Value>)
    ensures
        slot_view(r) == slot_view(*o),
{
    match o {
        Option::None => None,
        Option::Some(v) => Some(clone_value(v)),
    }
}

/// The storage of a fresh companion instance: every field starts as its
/// plan's initial value.
pub open spec fn initial_slots(p: BuilderSpecV) -> Seq<Option<ValueV>> {
    Seq::new(
        p.initial_values.len(),
        |i: int| match p.initial_values[i] {
            InitValue::Unset => None,
            InitValue::EmptySequence => Some(ValueV::Sequence(Seq::empty())),
        },
    )
}

/// The effect of an overwrite or wrap setter: the whole slot is replaced
/// by a present value.
pub open spec fn apply_store(slots: Seq<Option<ValueV>>, f: int, v: ValueV) -> Seq<
    Option<ValueV>,
> {
    slots.update(f, Some(v))
}

/// The effect of an append setter: one element is pushed onto the stored
/// sequence, which is created on first use.
pub open spec fn apply_append(slots: Seq<Option<ValueV>>, f: int, e: ElemV) -> Seq<
    Option<ValueV>,
> {
    match slots[f] {
        Some(ValueV::Sequence(es)) => slots.update(f, Some(ValueV::Sequence(es.push(e)))),
        _ => slots.update(f, Some(ValueV::Sequence(seq![e]))),
    }
}

/// Whether an assembly step fails on the given storage.
pub open spec fn missing_at(step: AsmStepV, slots: Seq<Option<ValueV>>) -> bool {
    step.required && slots[step.field] is None
}

/// The first assembly step, in declaration order, whose required field is
/// unset.
pub open spec fn first_missing(steps: Seq<AsmStepV>, slots: Seq<Option<ValueV>>) -> Option<
    int,
>
    decreases steps.len(),
{
    if steps.len() == 0 {
        None
    } else if missing_at(steps[0], slots) {
        Some(0)
    } else {
        match first_missing(steps.drop_first(), slots) {
            None => None,
            Some(i) => Some(i + 1),
        }
    }
}

/// Well-formedness of a plan as the runtime model needs it: the per-field
/// lists agree in length, assembly steps stand in declaration order, and
/// every setter points at a field of the plan.
pub open spec fn plan_wf(p: BuilderSpecV) -> bool {
    &&& p.initial_values.len() == p.storage_fields.len()
    &&& p.assembly.len() == p.storage_fields.len()
    &&& forall|i: int| 0 <= i < p.assembly.len() ==> #[trigger] p.assembly[i].field == i
    &&& forall|s: int|
        0 <= s < p.setters.len() ==> 0 <= #[trigger] setter_field(p.setters[s])
            < p.storage_fields.len()
}

/// The error of a failed assembly: the first required field, in
/// declaration order, that is still unset.
#[derive(Debug, PartialEq, Eq)]
pub struct MissingField {
    pub name: String,
}

impl View for MissingField {
    type V = Seq<char>;

    open spec fn view(&self) -> Seq<char> {
        self.name@
    }
}

/// An assembled instance of the original type: one value per field, in
/// declaration order. A required field always holds a present value; an
/// optional field holds whatever the builder stored, set or unset.
#[derive(Debug, PartialEq, Eq)]
pub struct Instance {
    pub values: Vec<Option<Value>>,
}

impl View for Instance {
    type V = Seq<Option<ValueV>>;

    open spec fn view(&self) -> Seq<Option<ValueV>> {
        slots_view(self.values@)
    }
}

proof fn lemma_slots_view_update(s: Seq<Option<Value>>, f: int, v: Option<Value>)
    requires
        0 <= f < s.len(),
    ensures
        slots_view(s.update(f, v)) == slots_view(s).update(f, slot_view(v)),
{
    assert forall|j: int| 0 <= j < s.len() implies slots_view(s.update(f, v))[j] == slots_view(
        s,
    ).update(f, slot_view(v))[j] by {
        assert(slots_view(s.update(f, v))[j] == slot_view(s.update(f, v)[j]));
        assert(slots_view(s)[j] == slot_view(s[j]));
    }
    assert(slots_view(s.update(f, v)) =~= slots_view(s).update(f, slot_view(v)));
}

proof fn lemma_first_missing_skip(steps: Seq<AsmStepV>, slots: Seq<Option<ValueV>>, i: int)
    requires
        0 <= i <= steps.len(),
        forall|j: int| 0 <= j < i ==> !missing_at(#[trigger] steps[j], slots),
    ensures
        first_missing(steps, slots) == match first_missing(steps.skip(i), slots) {
            None => None::<int>,
            Some(k) => Some(k + i),
        },
    decreases i,
{
    if i == 0 {
        assert(steps.skip(0) =~= steps);
    } else {
        assert(!missing_at(steps[0], slots));
        lemma_first_missing_skip(steps.drop_first(), slots, i - 1);
        assert(steps.drop_first().skip(i - 1) =~= steps.skip(i));
    }
}

/// The companion instance: the synthesized plan it follows, and one
/// storage slot per field.
pub struct Builder {
    plan: BuilderSpec,
    slots: Vec<Option<Value>>,
}

impl Builder {
    /// The plan this builder follows.
    pub closed spec fn plan_v(&self) -> BuilderSpecV {
        self.plan@
    }

    /// The current storage.
    pub closed spec fn slots_v(&self) -> Seq<Option<ValueV>> {
        slots_view(self.slots@)
    }

    /// The builder's invariant.
    pub open spec fn wf(&self) -> bool {
        &&& plan_wf(self.plan_v())
        &&& self.slots_v().len() == self.plan_v().storage_fields.len()
    }

    /// A fresh builder: every slot holds its initial value.
    pub fn new(plan: BuilderSpec) -> (r: Builder)
        requires
            plan_wf(plan@),
        ensures
            r.wf(),
            r.plan_v() == plan@,
            r.slots_v() == initial_slots(plan@),
    {
        let n = plan.initial_values.len();
        let mut slots: Vec<Option<Value>> = Vec::new();
        for i in 0..n
            invariant
                n == plan.initial_values.len(),
                slots@.len() == i,
                forall|j: int| 0 <= j < i ==> slot_view(#[trigger] slots@[j]) == initial_slots(
                    plan@,
                )[j],
        {
            let slot: Option<Value> = match plan.initial_values[i] {
                InitValue::Unset => None,
                InitValue::EmptySequence => Some(Value::Sequence(Vec::new())),
            };
            proof {
                assert(elems_view(Seq::<Elem>::empty()) =~= Seq::<ElemV>::empty());
            }
            slots.push(slot);
        }
        proof {
            assert(slots_view(slots@) =~= initial_slots(plan@));
        }
        Builder { plan, slots }
    }

    /// The plan, for callers that render or inspect the surface.
    pub fn plan(&self) -> (r: &BuilderSpec)
        ensures
            r@ == self.plan_v(),
    {
        &self.plan
    }

    /// Invokes an overwrite or wrap setter: the addressed field's slot is
    /// replaced by a present value; no other field changes.
    pub fn store(&mut self, s: usize, v: Value)
        requires
            old(self).wf(),
            s < old(self).plan_v().setters.len(),
            old(self).plan_v().setters[s as int] is Overwrite || old(
                self,
            ).plan_v().setters[s as int] is WrapSet,
        ensures
            final(self).wf(),
            final(self).plan_v() == old(self).plan_v(),
            final(self).slots_v() == apply_store(
                old(self).slots_v(),
                setter_field(old(self).plan_v().setters[s as int]),
                v@,
            ),
    {
        let f: usize = match &self.plan.setters[s] {
            SetterSpec::Overwrite { field, .. } => *field,
            SetterSpec::WrapSet { field, .. } => *field,
            SetterSpec::Append { field, .. } => *field,
            SetterSpec::Diagnostic { field, .. } => *field,
        };
        assert(f as int == setter_field(self.plan_v().setters[s as int]));
        let ghost before = self.slots@;
        self.slots.set(f, Some(v));
        proof {
            lemma_slots_view_update(before, f as int, Some(v));
        }
    }

    /// Invokes an append setter: one element is pushed onto the addressed
    /// field's sequence, which is created on first use; no other field
    /// changes.
    pub fn append(&mut self, s: usize, e: Elem)
        requires
            old(self).wf(),
            s < old(self).plan_v().setters.len(),
            old(self).plan_v().setters[s as int] is Append,
        ensures
            final(self).wf(),
            final(self).plan_v() == old(self).plan_v(),
            final(self).slots_v() == apply_append(
                old(self).slots_v(),
                setter_field(old(self).plan_v().setters[s as int]),
                e@,
            ),
    {
        let f: usize = match &self.plan.setters[s] {
            SetterSpec::Overwrite { field, .. } => *field,
            SetterSpec::WrapSet { field, .. } => *field,
            SetterSpec::Append { field, .. } => *field,
            SetterSpec::Diagnostic { field, .. } => *field,
        };
        assert(f as int == setter_field(self.plan_v().setters[s as int]));
        let ghost before = self.slots@;
        let cur = self.slots.remove(f);
        let next: Value = match cur {
            Some(Value::Sequence(es)) => {
                let mut es = es;
                let ghost es_before = es@;
                es.push(e);
                proof {
                    assert(elems_view(es@) =~= elems_view(es_before).push(e@));
                }
                Value::Sequence(es)
            },
            _ => {
                let mut es: Vec<Elem> = Vec::new();
                es.push(e);
                proof {
                    assert(elems_view(es@) =~= seq![e@]);
                }
                Value::Sequence(es)
            },
        };
        self.slots.insert(f, Some(next));
        proof {
            assert(self.slots@ =~= before.update(f as int, Some(next)));
            lemma_slots_view_update(before, f as int, Some(next));
            assert(slots_view(before)[f as int] == slot_view(before[f as int]));
        }
    }

    /// The assembly operation: checks the required fields in declaration
    /// order and fails on the first unset one, naming it; on success,
    /// duplicates the stored values into a fresh instance. The builder is
    /// read, never changed, so it stays valid for reuse after a failure.
    pub fn assemble(&self) -> (r: Result<Instance, MissingField>)
        requires
            self.wf(),
        ensures
            match r {
                Ok(inst) => first_missing(self.plan_v().assembly, self.slots_v()) is None
                    && inst@ == self.slots_v(),
                Err(m) => {
                    &&& first_missing(self.plan_v().assembly, self.slots_v()) matches Some(k)
                    &&& m@ == self.plan_v().assembly[
                        first_missing(self.plan_v().assembly, self.slots_v()).unwrap()
                    ].name
                },
            },
    {
        let ghost steps = self.plan_v().assembly;
        let n = self.plan.assembly.len();
        for i in 0..n
            invariant
                self.wf(),
                n == self.plan.assembly.len(),
                steps == self.plan_v().assembly,
                forall|j: int| 0 <= j < i ==> !missing_at(#[trigger] steps[j], self.slots_v()),
        {
            assert(steps[i as int] == self.plan.assembly@[i as int]@);
            let step = &self.plan.assembly[i];
            if step.required {
                assert(steps[i as int].field == i as int);
                assert(step.field as int == steps[i as int].field);
                assert(self.slots_v().len() == slots_view(self.slots@).len());
                assert(step.field < self.slots@.len());
                if self.slots[step.field].is_none() {
                    assert(slots_view(self.slots@)[step.field as int] == slot_view(
                        self.slots@[step.field as int],
                    ));
                    proof {
                        lemma_first_missing_skip(steps, self.slots_v(), i as int);
                        assert(missing_at(steps.skip(i as int)[0], self.slots_v()));
                    }
                    return Err(MissingField { name: step.name.clone() });
                }
                assert(slots_view(self.slots@)[step.field as int] == slot_view(
                    self.slots@[step.field as int],
                ));
            }
        }
        proof {
            lemma_first_missing_skip(steps, self.slots_v(), n as int);
            assert(steps.skip(n as int) =~= Seq::<AsmStepV>::empty());
        }
        let m = self.slots.len();
        let mut values: Vec<Option<Value>> = Vec::new();
        for i in 0..m
            invariant
                m == self.slots.len(),
                values@.len() == i,
                forall|j: int| 0 <= j < i ==> slot_view(#[trigger] values@[j]) == slot_view(
                    self.slots@[j],
                ),
        {
            let slot = clone_slot(&self.slots[i]);
            values.push(slot);
        }
        proof {
            assert(slots_view(values@) =~= slots_view(self.slots@));
        }
        Ok(Instance { values })
    }
}

} // verus!

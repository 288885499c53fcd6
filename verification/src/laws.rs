//! The laws of the synthesized companion type, proved once and for all
//! definitions: what the setter surface of a field looks like, and how
//! setters and assembly interact over any builder state.

use vstd::prelude::*;
use crate::annot::EachConfigV;
use crate::classify::TypeShapeV;
use crate::companion::{
    apply_append, apply_store, first_missing, initial_slots, missing_at, plan_wf, ElemV, ValueV,
};
use crate::model::FieldSchemaV;
use crate::synth::{
    all_shapes_ok, assembly_plan, builder_plan, field_config, field_shape, setter_field,
    setter_plan, setters_at, AsmStepV, SetterSpecV,
};

verus! {

/// Every setter emitted for a field addresses that field.
pub proof fn lemma_setters_of_field(fields: Seq<FieldSchemaV>, i: int, k: int)
    requires
        0 <= i < fields.len(),
        0 <= k < setters_at(fields, i).len(),
    ensures
        setter_field(setters_at(fields, i)[k]) == i,
{
    let ss = setters_at(fields, i);
    if k == 0 {
        assert(setter_field(ss[0]) == i);
    } else {
        assert(k == 1);
        assert(setter_field(ss[1]) == i);
    }
}

/// Every setter of the plan addresses a field of the plan, and is one of
/// that field's own setters.
pub proof fn lemma_setter_plan_membership(fields: Seq<FieldSchemaV>, s: int)
    requires
        0 <= s < setter_plan(fields).len(),
    ensures
        0 <= setter_field(setter_plan(fields)[s]) < fields.len(),
        setters_at(fields, setter_field(setter_plan(fields)[s])).contains(
            setter_plan(fields)[s],
        ),
    decreases fields.len(),
{
    let n = fields.len() as int;
    let pre = setter_plan(fields.drop_last());
    if s < pre.len() {
        lemma_setter_plan_membership(fields.drop_last(), s);
        let f = setter_field(pre[s]);
        assert(setter_plan(fields)[s] == pre[s]);
        assert(fields.drop_last()[f] == fields[f]);
        assert(setters_at(fields.drop_last(), f) == setters_at(fields, f));
    } else {
        let k = s - pre.len();
        assert(setter_plan(fields)[s] == setters_at(fields, n - 1)[k]);
        lemma_setters_of_field(fields, n - 1, k);
    }
}

/// A synthesized plan is well formed: its per-field lists agree in
/// length, its assembly steps stand in declaration order, and every
/// setter addresses a field of the plan.
pub proof fn lemma_generated_plan_wf(fields: Seq<FieldSchemaV>)
    requires
        all_shapes_ok(fields),
    ensures
        plan_wf(builder_plan(fields)),
{
    let p = builder_plan(fields);
    assert forall|s: int| 0 <= s < p.setters.len() implies 0 <= #[trigger] setter_field(
        p.setters[s],
    ) < p.storage_fields.len() by {
        lemma_setter_plan_membership(fields, s);
    }
}

/// Characterizes the first-missing-field search: it returns `None` when
/// no step fails, and otherwise the earliest failing step, in order.
pub proof fn lemma_first_missing_spec(steps: Seq<AsmStepV>, slots: Seq<Option<ValueV>>)
    ensures
        match first_missing(steps, slots) {
            None => forall|j: int| 0 <= j < steps.len() ==> !missing_at(
                #[trigger] steps[j],
                slots,
            ),
            Some(k) => {
                &&& 0 <= k < steps.len()
                &&& missing_at(steps[k], slots)
                &&& forall|j: int| 0 <= j < k ==> !missing_at(#[trigger] steps[j], slots)
            },
        },
    decreases steps.len(),
{
    if steps.len() > 0 && !missing_at(steps[0], slots) {
        lemma_first_missing_spec(steps.drop_first(), slots);
        match first_missing(steps.drop_first(), slots) {
            None => {
                assert forall|j: int| 0 <= j < steps.len() implies !missing_at(
                    #[trigger] steps[j],
                    slots,
                ) by {
                    if j > 0 {
                        assert(steps[j] == steps.drop_first()[j - 1]);
                    }
                }
            },
            Some(k) => {
                assert(steps[k + 1] == steps.drop_first()[k]);
                assert forall|j: int| 0 <= j < k + 1 implies !missing_at(
                    #[trigger] steps[j],
                    slots,
                ) by {
                    if j > 0 {
                        assert(steps[j] == steps.drop_first()[j - 1]);
                    }
                }
            },
        }
    }
}

/// An optional field's setter surface is a single wrap setter, and
/// invoking it and then assembling — with every required field already
/// set — succeeds and yields exactly the stored value in that field.
pub proof fn lemma_optional_setter_assembles(
    fields: Seq<FieldSchemaV>,
    slots: Seq<Option<ValueV>>,
    f: int,
    v: ValueV,
)
    requires
        all_shapes_ok(fields),
        slots.len() == fields.len(),
        0 <= f < fields.len(),
        field_shape(fields[f]).unwrap() is Optional,
        !(field_config(fields[f]) is Malformed),
        forall|j: int|
            0 <= j < fields.len() && !(#[trigger] field_shape(fields[j]).unwrap() is Optional)
                ==> slots[j] is Some,
    ensures
        setters_at(fields, f) == seq![
            SetterSpecV::WrapSet {
                field: f,
                name: fields[f].name,
                inner: field_shape(fields[f]).unwrap()->Optional_0,
            },
        ],
        first_missing(assembly_plan(fields), apply_store(slots, f, v)) is None,
        apply_store(slots, f, v)[f] == Some(v),
{
    let slots2 = apply_store(slots, f, v);
    let steps = assembly_plan(fields);
    assert forall|j: int| 0 <= j < steps.len() implies !missing_at(
        #[trigger] steps[j],
        slots2,
    ) by {
        if steps[j].required {
            assert(!(field_shape(fields[j]).unwrap() is Optional));
            if j != f {
                assert(slots2[j] == slots[j]);
            }
        }
    }
    lemma_first_missing_spec(steps, slots2);
    if first_missing(steps, slots2) is Some {
        assert(missing_at(steps[first_missing(steps, slots2).unwrap()], slots2));
    }
}

/// Setters are monotonic: each moves its field from unset to set or
/// overwrites an already-set value, and no setter unsets any field.
pub proof fn lemma_setters_monotonic(slots: Seq<Option<ValueV>>, f: int, v: ValueV, e: ElemV)
    requires
        0 <= f < slots.len(),
    ensures
        apply_store(slots, f, v)[f] is Some,
        apply_append(slots, f, e)[f] is Some,
        forall|j: int| 0 <= j < slots.len() && slots[j] is Some ==> apply_store(
            slots,
            f,
            v,
        )[j] is Some,
        forall|j: int| 0 <= j < slots.len() && slots[j] is Some ==> apply_append(
            slots,
            f,
            e,
        )[j] is Some,
{
}

/// The iterated effect of an append setter over a sequence of elements.
pub open spec fn apply_appends(
    slots: Seq<Option<ValueV>>,
    f: int,
    es: Seq<ElemV>,
) -> Seq<Option<ValueV>>
    decreases es.len(),
{
    if es.len() == 0 {
        slots
    } else {
        apply_append(apply_appends(slots, f, es.drop_last()), f, es.last())
    }
}

/// Appending `n` elements to a field that holds a present sequence
/// yields that sequence extended by exactly those elements, in call
/// order; no other field changes.
pub proof fn lemma_append_accumulates(
    slots: Seq<Option<ValueV>>,
    f: int,
    init: Seq<ElemV>,
    es: Seq<ElemV>,
)
    requires
        0 <= f < slots.len(),
        slots[f] == Some(ValueV::Sequence(init)),
    ensures
        apply_appends(slots, f, es).len() == slots.len(),
        apply_appends(slots, f, es)[f] == Some(ValueV::Sequence(init + es)),
        forall|j: int| 0 <= j < slots.len() && j != f ==> apply_appends(slots, f, es)[j]
            == slots[j],
    decreases es.len(),
{
    if es.len() == 0 {
        assert(init + es =~= init);
    } else {
        lemma_append_accumulates(slots, f, init, es.drop_last());
        let prev = apply_appends(slots, f, es.drop_last());
        assert(prev[f] == Some(ValueV::Sequence(init + es.drop_last())));
        assert((init + es.drop_last()).push(es.last()) =~= init + es);
    }
}

/// An overwrite setter replaces the whole stored value, changes no other
/// field, and is idempotent under repeated identical calls.
pub proof fn lemma_overwrite_replaces(slots: Seq<Option<ValueV>>, f: int, v: ValueV)
    requires
        0 <= f < slots.len(),
    ensures
        apply_store(slots, f, v)[f] == Some(v),
        forall|j: int| 0 <= j < slots.len() && j != f ==> apply_store(slots, f, v)[j]
            == slots[j],
        apply_store(apply_store(slots, f, v), f, v) == apply_store(slots, f, v),
{
    assert(apply_store(apply_store(slots, f, v), f, v) =~= apply_store(slots, f, v));
}

/// A repeated field whose configured append name differs from the
/// field's own name gets both setters: the append setter under the
/// configured name and the whole-sequence overwrite setter under the
/// field's name.
pub proof fn lemma_repeated_distinct_setters(fields: Seq<FieldSchemaV>, f: int)
    requires
        0 <= f < fields.len(),
        field_shape(fields[f]).unwrap() is Repeated,
        field_config(fields[f]) matches EachConfigV::Present(each) && each != fields[f].name,
    ensures
        setters_at(fields, f) == seq![
            SetterSpecV::Append {
                field: f,
                name: field_config(fields[f])->Present_0,
                inner: field_shape(fields[f]).unwrap()->Repeated_0,
            },
            SetterSpecV::Overwrite {
                field: f,
                name: fields[f].name,
                param_text: fields[f].ty.text,
            },
        ],
{
}

/// In the self-collision case — a repeated field whose configured append
/// name equals the field's own name — exactly one setter exists for that
/// field, the append setter; no overwrite setter is reachable for it.
pub proof fn lemma_self_collision_single_setter(fields: Seq<FieldSchemaV>, f: int)
    requires
        0 <= f < fields.len(),
        field_shape(fields[f]).unwrap() is Repeated,
        field_config(fields[f]) == EachConfigV::Present(fields[f].name),
    ensures
        setters_at(fields, f) == seq![
            SetterSpecV::Append {
                field: f,
                name: fields[f].name,
                inner: field_shape(fields[f]).unwrap()->Repeated_0,
            },
        ],
        forall|s: int|
            0 <= s < setter_plan(fields).len() && setter_field(
                #[trigger] setter_plan(fields)[s],
            ) == f ==> setter_plan(fields)[s] == (SetterSpecV::Append {
                field: f,
                name: fields[f].name,
                inner: field_shape(fields[f]).unwrap()->Repeated_0,
            }),
{
    assert forall|s: int|
        0 <= s < setter_plan(fields).len() && setter_field(#[trigger] setter_plan(fields)[s])
            == f implies setter_plan(fields)[s] == (SetterSpecV::Append {
        field: f,
        name: fields[f].name,
        inner: field_shape(fields[f]).unwrap()->Repeated_0,
    }) by {
        lemma_setter_plan_membership(fields, s);
        let ss = setters_at(fields, f);
        assert(ss.len() == 1);
        assert(ss.contains(setter_plan(fields)[s]));
        assert(setter_plan(fields)[s] == ss[0]);
    }
}

/// A repeated field with a present configuration starts as a present,
/// empty sequence; assembling a builder whose other required fields are
/// set therefore succeeds, with an empty sequence in that field, even
/// though no setter ever touched it.
pub proof fn lemma_unset_repeated_assembles(
    fields: Seq<FieldSchemaV>,
    slots: Seq<Option<ValueV>>,
    f: int,
)
    requires
        all_shapes_ok(fields),
        slots.len() == fields.len(),
        0 <= f < fields.len(),
        field_shape(fields[f]).unwrap() is Repeated,
        field_config(fields[f]) is Present,
        slots[f] == initial_slots(builder_plan(fields))[f],
        forall|j: int|
            0 <= j < fields.len() && j != f && !(#[trigger] field_shape(
                fields[j],
            ).unwrap() is Optional) ==> slots[j] is Some,
    ensures
        slots[f] == Some(ValueV::Sequence(Seq::<ElemV>::empty())),
        first_missing(assembly_plan(fields), slots) is None,
{
    let steps = assembly_plan(fields);
    assert forall|j: int| 0 <= j < steps.len() implies !missing_at(
        #[trigger] steps[j],
        slots,
    ) by {
        if steps[j].required && j != f {
            assert(!(field_shape(fields[j]).unwrap() is Optional));
        }
    }
    lemma_first_missing_spec(steps, slots);
    if first_missing(steps, slots) is Some {
        assert(missing_at(steps[first_missing(steps, slots).unwrap()], slots));
    }
}

/// After a failed assembly, setting the reported field and retrying
/// either succeeds or reports a strictly later field in declaration
/// order: the required-field check makes progress.
pub proof fn lemma_missing_progress(fields: Seq<FieldSchemaV>, slots: Seq<Option<ValueV>>, v: ValueV)
    requires
        slots.len() == fields.len(),
        first_missing(assembly_plan(fields), slots) is Some,
    ensures
        ({
            let k = first_missing(assembly_plan(fields), slots).unwrap();
            let slots2 = apply_store(slots, assembly_plan(fields)[k].field, v);
            match first_missing(assembly_plan(fields), slots2) {
                None => true,
                Some(k2) => k2 > k,
            }
        }),
{
    let steps = assembly_plan(fields);
    let k = first_missing(steps, slots).unwrap();
    lemma_first_missing_spec(steps, slots);
    let slots2 = apply_store(slots, steps[k].field, v);
    lemma_first_missing_spec(steps, slots2);
    match first_missing(steps, slots2) {
        None => {},
        Some(k2) => {
            if k2 <= k {
                assert(missing_at(steps[k2], slots2));
                assert(steps[k2].field == k2);
                if k2 == k {
                    assert(slots2[k2] == Some(v));
                } else {
                    assert(slots2[k2] == slots[k2]);
                    assert(!missing_at(steps[k2], slots));
                }
                assert(false);
            }
        },
    }
}

/// The iterated effect of setting the first `n` fields to given values.
pub open spec fn store_each(
    slots: Seq<Option<ValueV>>,
    vs: Seq<ValueV>,
    n: int,
) -> Seq<Option<ValueV>>
    decreases n,
{
    if n <= 0 {
        slots
    } else {
        apply_store(store_each(slots, vs, n - 1), n - 1, vs[n - 1])
    }
}

proof fn lemma_store_each(slots: Seq<Option<ValueV>>, vs: Seq<ValueV>, n: int)
    requires
        0 <= n <= slots.len(),
        vs.len() == slots.len(),
    ensures
        store_each(slots, vs, n).len() == slots.len(),
        forall|j: int| 0 <= j < n ==> store_each(slots, vs, n)[j] == Some(vs[j]),
        forall|j: int| n <= j < slots.len() ==> store_each(slots, vs, n)[j] == slots[j],
    decreases n,
{
    if n > 0 {
        lemma_store_each(slots, vs, n - 1);
    }
}

/// Round trip for a definition of plain fields only: every field gets
/// the overwrite setter under its own name, and setting every field once
/// and assembling yields exactly the instance built directly from the
/// same values.
pub proof fn lemma_plain_round_trip(fields: Seq<FieldSchemaV>, vs: Seq<ValueV>)
    requires
        all_shapes_ok(fields),
        vs.len() == fields.len(),
        forall|j: int| 0 <= j < fields.len() ==> #[trigger] field_shape(
            fields[j],
        ).unwrap() is Plain,
        forall|j: int| 0 <= j < fields.len() ==> !(#[trigger] field_config(
            fields[j],
        ) is Malformed),
    ensures
        forall|j: int| 0 <= j < fields.len() ==> #[trigger] setters_at(fields, j) == seq![
            SetterSpecV::Overwrite {
                field: j,
                name: fields[j].name,
                param_text: fields[j].ty.text,
            },
        ],
        ({
            let slots = store_each(initial_slots(builder_plan(fields)), vs, fields.len() as int);
            &&& first_missing(assembly_plan(fields), slots) is None
            &&& slots == vs.map(|i: int, v: ValueV| Some(v))
        }),
{
    let init = initial_slots(builder_plan(fields));
    let n = fields.len() as int;
    lemma_store_each(init, vs, n);
    let slots = store_each(init, vs, n);
    let steps = assembly_plan(fields);
    assert forall|j: int| 0 <= j < steps.len() implies !missing_at(
        #[trigger] steps[j],
        slots,
    ) by {
        assert(slots[j] == Some(vs[j]));
    }
    lemma_first_missing_spec(steps, slots);
    if first_missing(steps, slots) is Some {
        assert(missing_at(steps[first_missing(steps, slots).unwrap()], slots));
    }
    assert(slots =~= vs.map(|i: int, v: ValueV| Some(v)));
}

} // verus!

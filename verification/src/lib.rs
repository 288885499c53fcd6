//! Schema-driven generation of companion "builder" types.
//!
//! Given a structural description of a product type (an ordered list of
//! named, typed, optionally annotated fields), this crate classifies each
//! field's declared type, parses its configuration annotation, and
//! synthesizes a specification of a companion builder type: its storage
//! layout, initial state, setter surface, and fallible assembly operation.
//! A small verified model of the companion type's runtime behaviour is
//! included, so that the builder contract (monotonic setters, ordered
//! required-field checks, reusable assembly) is stated and proved here.

use vstd::prelude::*;

pub mod annot;
pub mod classify;
pub mod companion;
pub mod laws;
pub mod model;
pub mod synth;

use crate::companion::{initial_slots, Builder};
use crate::model::{DefBodyV, Definition, GenError};
use crate::synth::{all_shapes_ok, builder_plan, generate};

verus! {

/// Computes the companion type's name from the original type's name.
pub fn companion_name(name: &String) -> (r: String)
    ensures
        r@ == name@ + "Builder"@,
{
    name.clone().concat("Builder")
}

/// Runs the whole generation pass on a definition and returns a fresh
/// companion builder following the synthesized plan, or the fatal error
/// that stopped generation.
pub fn builder_for(def: &Definition) -> (r: Result<Builder, GenError>)
    ensures
        match r {
            Ok(b) => {
                &&& def.body@ matches DefBodyV::NamedProduct(fs)
                &&& all_shapes_ok(fs)
                &&& b.wf()
                &&& b.plan_v() == builder_plan(fs)
                &&& b.slots_v() == initial_slots(builder_plan(fs))
            },
            Err(e) => match e {
                GenError::UnsupportedShape => !(def.body@ is NamedProduct),
                GenError::InvalidWrapperShape => def.body@ matches DefBodyV::NamedProduct(fs)
                    && !all_shapes_ok(fs),
            },
        },
{
    let plan = generate(def)?;
    proof {
        let fs = def.body@->NamedProduct_0;
        crate::laws::lemma_generated_plan_wf(fs);
    }
    Ok(Builder::new(plan))
}

} // verus!

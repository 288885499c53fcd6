//! Parsing of a field's configuration annotation.
//!
//! The parser scans the field's annotations for the first one carrying the
//! recognized configuration key. Within that annotation exactly one nested
//! `key = "value"` entry is expected, with the recognized nested key and a
//! string-literal value; only the first nested entry is ever inspected,
//! any remainder is ignored. A present-but-malformed configuration is
//! always surfaced as a placed diagnostic, never silently dropped.

use vstd::prelude::*;
use crate::model::{string_is, AnnBodyV, AnnValueV, Annotation, AnnotationV};

verus! {

/// The parse result of a field's configuration annotation.
#[derive(Debug, PartialEq, Eq)]
pub enum EachConfig {
    /// No annotation carries the configuration key.
    NotRequested,
    /// The configured append-setter name.
    Present(String),
    /// A configuration annotation exists but has the wrong shape; carries
    /// the index of that annotation in the field's annotation list, for
    /// diagnostic placement.
    Malformed(usize),
}

/// The view of an [`EachConfig`].
pub enum EachConfigV {
    NotRequested,
    Present(Seq<char>),
    Malformed(int),
}

impl View for EachConfig {
    type V = EachConfigV;

    open spec fn view(&self) -> EachConfigV {
        match self {
            EachConfig::NotRequested => EachConfigV::NotRequested,
            EachConfig::Present(s) => EachConfigV::Present(s@),
            EachConfig::Malformed(i) => EachConfigV::Malformed(*i as int),
        }
    }
}

/// The key that marks an annotation as a configuration annotation.
pub open spec fn config_key() -> Seq<char> {
    "builder"@
}

/// The recognized nested key naming the append setter.
pub open spec fn each_key() -> Seq<char> {
    "each"@
}

/// Whether an annotation carries the configuration key.
pub open spec fn is_config_annotation(a: AnnotationV) -> bool {
    a.key == config_key()
}

/// The index of the first annotation carrying the configuration key.
pub open spec fn first_config_index(anns: Seq<AnnotationV>) -> Option<int>
    decreases anns.len(),
{
    if anns.len() == 0 {
        None
    } else if is_config_annotation(anns[0]) {
        Some(0)
    } else {
        match first_config_index(anns.drop_first()) {
            None => None,
            Some(i) => Some(i + 1),
        }
    }
}

/// The append-setter name carried by a configuration annotation, if its
/// first nested entry has the recognized key and a string-literal value.
pub open spec fn each_value_of(a: AnnotationV) -> Option<Seq<char>> {
    match a.body {
        AnnBodyV::Entries(es) => if es.len() >= 1 {
            match es[0].value {
                AnnValueV::Text(t) => if es[0].key == each_key() {
                    Some(t)
                } else {
                    None
                },
                AnnValueV::Other => None,
            }
        } else {
            None
        },
        AnnBodyV::Bare => None,
    }
}

/// The configuration of a field, from its annotation list: the first
/// annotation carrying the configuration key decides, and a wrong shape
/// inside it is malformed rather than absent.
pub open spec fn each_config_of(anns: Seq<AnnotationV>) -> EachConfigV {
    match first_config_index(anns) {
        None => EachConfigV::NotRequested,
        Some(i) => match each_value_of(anns[i]) {
            Some(v) => EachConfigV::Present(v),
            None => EachConfigV::Malformed(i),
        },
    }
}

/// The view of an annotation list.
pub open spec fn anns_view(anns: Seq<Annotation>) -> Seq<AnnotationV> {
    anns.map(|i: int, a: Annotation| a@)
}

proof fn lemma_first_config_skip(anns: Seq<AnnotationV>, i: int)
    requires
        0 <= i <= anns.len(),
        forall|j: int| 0 <= j < i ==> !is_config_annotation(anns[j]),
    ensures
        first_config_index(anns) == match first_config_index(anns.skip(i)) {
            None => None::<int>,
            Some(k) => Some(k + i),
        },
    decreases i,
{
    if i == 0 {
        assert(anns.skip(0) =~= anns);
    } else {
        assert(anns.len() > 0);
        assert(!is_config_annotation(anns[0]));
        lemma_first_config_skip(anns.drop_first(), i - 1);
        assert(anns.drop_first().skip(i - 1) =~= anns.skip(i));
    }
}

/// Scans the annotation list for the configuration annotation and parses
/// its single supported option.
pub fn parse_attr_each(anns: &Vec<Annotation>) -> (r: EachConfig)
    ensures
        r@ == each_config_of(anns_view(anns@)),
{
    let ghost annsv = anns_view(anns@);
    let n = anns.len();
    for i in 0..n
        invariant
            n == anns.len(),
            annsv == anns_view(anns@),
            forall|j: int| 0 <= j < i ==> !is_config_annotation(annsv[j]),
    {
        assert(annsv[i as int] == anns@[i as int]@);
        if string_is(&anns[i].key, "builder") {
            proof {
                lemma_first_config_skip(annsv, i as int);
                assert(is_config_annotation(annsv.skip(i as int)[0]));
                assert(first_config_index(annsv) == Some(i as int));
            }
            match &anns[i].body {
                crate::model::AnnBody::Entries(es) => {
                    if es.len() >= 1 {
                        assert(es@.map(|k: int, e: crate::model::AnnEntry| e@)[0] == es@[0]@);
                        match &es[0].value {
                            crate::model::AnnValue::Text(t) => {
                                if string_is(&es[0].key, "each") {
                                    return EachConfig::Present(t.clone());
                                } else {
                                    return EachConfig::Malformed(i);
                                }
                            },
                            crate::model::AnnValue::Other => {
                                return EachConfig::Malformed(i);
                            },
                        }
                    } else {
                        return EachConfig::Malformed(i);
                    }
                },
                crate::model::AnnBody::Bare => {
                    return EachConfig::Malformed(i);
                },
            }
        }
    }
    proof {
        lemma_first_config_skip(annsv, n as int);
        assert(annsv.skip(n as int) =~= Seq::<AnnotationV>::empty());
    }
    EachConfig::NotRequested
}

} // verus!

//! A first-match flag rule: a floating parking sign class is forbidden.

use vstd::prelude::*;

use crate::annotation::{spec_annotation, Annotation, AnnotationData, Level, SourceFile};
use crate::text::{join_path, spec_join, str_eq};
use crate::tree::{Document, Node, Span};
use crate::{get_string, spec_get_string};

verus! {

/// Tracks whether the forbidden parking sign has been seen; presence at
/// finalize is an error. Later matches after the first are ignored.
#[derive(Debug)]
pub struct CUPParking {
    pub seen: bool,
}

impl CUPParking {
    pub fn new() -> (r: Self)
        ensures
            r.seen == false,
    {
        CUPParking { seen: false }
    }

    /// One entity qualifies when it is an object of the forbidden sign
    /// class.
    pub open spec fn spec_qualifies(class: Node, data_type: Seq<char>) -> bool {
        data_type == "Object"@ && match spec_get_string(class.children_seq(), "type"@) {
            Some((s, _)) => s == "CUP_sign_parking"@,
            None => false,
        }
    }

    /// The flag after observing one entity: set once, never cleared.
    pub open spec fn spec_observe(seen: bool, class: Node, data_type: Seq<char>) -> bool {
        seen || Self::spec_qualifies(class, data_type)
    }

    /// The diagnostics at finalize: one error when the sign was seen.
    pub open spec fn spec_done(seen: bool, dir: Seq<char>) -> Seq<AnnotationData> {
        if seen {
            seq![
                spec_annotation(
                    None,
                    spec_join(dir, "mission.sqm"@),
                    Seq::empty(),
                    Span { start: 0, end: 0 },
                    "Use the vanilla \"Parking Lot\" (RoadSign_Livonia_parking) sign, the CUP sign floats above the ground"@,
                    Level::Error,
                ),
            ]
        } else {
            Seq::empty()
        }
    }

    pub fn object(
        &mut self,
        _mission: (&SourceFile, &Document),
        _dir: &str,
        class: &Node,
        data_type: &str,
    )
        ensures
            final(self).seen == Self::spec_observe(old(self).seen, *class, data_type@),
    {
        if !str_eq(data_type, "Object") {
            return;
        }
        if self.seen {
            return;
        }
        match get_string(class, "type") {
            Some((s, _)) => {
                if str_eq(s, "CUP_sign_parking") {
                    self.seen = true;
                }
            },
            None => {},
        }
    }

    pub fn done(&self, dir: &str) -> (r: Vec<Annotation>)
        ensures
            r.deep_view() == Self::spec_done(self.seen, dir@),
    {
        if self.seen {
            proof {
                reveal_strlit("");
            }
            let mut v: Vec<Annotation> = Vec::new();
            v.push(
                Annotation::new(
                    None,
                    join_path(dir, "mission.sqm"),
                    "",
                    Span { start: 0, end: 0 },
                    String::from_str(
                        "Use the vanilla \"Parking Lot\" (RoadSign_Livonia_parking) sign, the CUP sign floats above the ground",
                    ),
                    Level::Error,
                ),
            );
            proof {
                assert(v.deep_view() =~= Self::spec_done(self.seen, dir@));
            }
            v
        } else {
            let v: Vec<Annotation> = Vec::new();
            proof {
                assert(v.deep_view() =~= Self::spec_done(self.seen, dir@));
            }
            v
        }
    }
}

impl Default for CUPParking {
    fn default() -> (r: Self)
        ensures
            r.seen == false,
    {
        CUPParking::new()
    }
}

/// Idempotent first match: observing the same entity a second time leaves
/// the flag — and with it the finalize result — exactly as after the first
/// observation.
pub proof fn lemma_first_match_idempotent(
    seen: bool,
    class: Node,
    data_type: Seq<char>,
    dir: Seq<char>,
)
    ensures
        CUPParking::spec_observe(
            CUPParking::spec_observe(seen, class, data_type),
            class,
            data_type,
        ) == CUPParking::spec_observe(seen, class, data_type),
        CUPParking::spec_done(
            CUPParking::spec_observe(
                CUPParking::spec_observe(seen, class, data_type),
                class,
                data_type,
            ),
            dir,
        ) == CUPParking::spec_done(CUPParking::spec_observe(seen, class, data_type), dir),
{
}

} // verus!

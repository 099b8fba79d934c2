//! A first-match flag rule: curator (Zeus) modules are forbidden.

use vstd::prelude::*;

use crate::annotation::{spec_annotation, Annotation, AnnotationData, Level, SourceFile};
use crate::text::{join_path, spec_join, str_eq};
use crate::tree::{Document, Node, Span};
use crate::{get_string, spec_get_string};

verus! {

/// Tracks whether a curator module has been seen; presence at finalize is
/// an error.
#[derive(Debug)]
pub struct ZeusModule {
    pub seen: bool,
}

impl ZeusModule {
    pub fn new() -> (r: Self)
        ensures
            r.seen == false,
    {
        ZeusModule { seen: false }
    }

    /// One entity qualifies when it is a logic of the curator module class.
    pub open spec fn spec_qualifies(class: Node, data_type: Seq<char>) -> bool {
        data_type == "Logic"@ && match spec_get_string(class.children_seq(), "type"@) {
            Some((s, _)) => s == "ModuleCurator_F"@,
            None => false,
        }
    }

    /// The flag after observing one entity: set once, never cleared.
    pub open spec fn spec_observe(seen: bool, class: Node, data_type: Seq<char>) -> bool {
        seen || Self::spec_qualifies(class, data_type)
    }

    /// The diagnostics at finalize: one error when a module was seen.
    pub open spec fn spec_done(seen: bool, dir: Seq<char>) -> Seq<AnnotationData> {
        if seen {
            seq![
                spec_annotation(
                    None,
                    spec_join(dir, "mission.sqm"@),
                    Seq::empty(),
                    Span { start: 0, end: 0 },
                    "Zeus modules should not be placed in missions. (You can use ACE interact for local testing)"@,
                    Level::Error,
                ),
            ]
        } else {
            Seq::empty()
        }
    }

    pub fn object(
        &mut self,
        _mission: (&SourceFile, &Document),
        _dir: &str,
        class: &Node,
        data_type: &str,
    )
        ensures
            final(self).seen == Self::spec_observe(old(self).seen, *class, data_type@),
    {
        if !str_eq(data_type, "Logic") {
            return;
        }
        if self.seen {
            return;
        }
        match get_string(class, "type") {
            Some((s, _)) => {
                if str_eq(s, "ModuleCurator_F") {
                    self.seen = true;
                }
            },
            None => {},
        }
    }

    pub fn done(&self, dir: &str) -> (r: Vec<Annotation>)
        ensures
            r.deep_view() == Self::spec_done(self.seen, dir@),
    {
        if self.seen {
            proof {
                reveal_strlit("");
            }
            let mut v: Vec<Annotation> = Vec::new();
            v.push(
                Annotation::new(
                    None,
                    join_path(dir, "mission.sqm"),
                    "",
                    Span { start: 0, end: 0 },
                    String::from_str(
                        "Zeus modules should not be placed in missions. (You can use ACE interact for local testing)",
                    ),
                    Level::Error,
                ),
            );
            proof {
                assert(v.deep_view() =~= Self::spec_done(self.seen, dir@));
            }
            v
        } else {
            let v: Vec<Annotation> = Vec::new();
            proof {
                assert(v.deep_view() =~= Self::spec_done(self.seen, dir@));
            }
            v
        }
    }
}

impl Default for ZeusModule {
    fn default() -> (r: Self)
        ensures
            r.seen == false,
    {
        ZeusModule::new()
    }
}

} // verus!

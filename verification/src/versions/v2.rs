//! The check suite for template version 2: description checks (skipped for
//! the untouched template directories) and the start-time check.

use vstd::prelude::*;

use crate::annotation::{Annotation, AnnotationData, SourceFile};
use crate::checks::description::{name_summary_author, spec_name_summary_author};
use crate::checks::time::{spec_time, time};
use crate::text::{spec_starts_with, starts_with};
use crate::tree::{Document, Node};

verus! {

/// Everything the version-2 suite returns.
pub open spec fn spec_check(
    dir: Seq<char>,
    dir_name: Seq<char>,
    mission: (SourceFile, Seq<Node>),
    config: (SourceFile, Seq<Node>),
) -> Seq<AnnotationData> {
    (if !spec_starts_with(dir_name, "TT"@) {
        spec_name_summary_author(dir, config.0, config.1)
    } else {
        Seq::empty()
    }) + spec_time(dir, mission, config)
}

/// Runs the version-2 suite: the description checks — except in template
/// directories, whose names start with `TT` and whose files stay untouched
/// — then the start-time check.
pub fn check(
    dir: &str,
    dir_name: &str,
    mission: (&SourceFile, &Document),
    config: (&SourceFile, &Document),
) -> (r: Vec<Annotation>)
    requires
        mission.0.wf(),
        config.0.wf(),
    ensures
        r.deep_view() == spec_check(
            dir@,
            dir_name@,
            (*mission.0, mission.1.nodes@),
            (*config.0, config.1.nodes@),
        ),
{
    let mut messages: Vec<Annotation> = Vec::new();
    let ghost empty_head = messages.deep_view();
    if !starts_with(dir_name, "TT") {
        let mut head = name_summary_author(dir, config);
        let ghost head_view = head.deep_view();
        messages.append(&mut head);
        proof {
            assert(messages.deep_view() =~= head_view);
        }
    }
    let ghost before_time = messages.deep_view();
    let mut tail = time(dir, mission, config);
    let ghost tail_view = tail.deep_view();
    messages.append(&mut tail);
    proof {
        assert(messages.deep_view() =~= before_time + tail_view);
        assert(Seq::<AnnotationData>::empty() + tail_view =~= tail_view);
        assert(messages.deep_view() =~= spec_check(
            dir@,
            dir_name@,
            (*mission.0, mission.1.nodes@),
            (*config.0, config.1.nodes@),
        ));
    }
    messages
}

} // verus!

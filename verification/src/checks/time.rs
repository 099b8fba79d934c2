//! The start-time consistency check: the hour set inside the mission must
//! sit one hour before the announced start time.

use vstd::prelude::*;

use crate::annotation::{spec_annotation, Annotation, AnnotationData, Level, SourceFile};
use crate::text::{join_path, spec_join};
use crate::tree::{Document, Span};
use crate::{get_class, get_number, spec_get_class, spec_get_number};

verus! {

/// The diagnostics of the time check, as `time` returns them.
pub open spec fn spec_time(
    dir: Seq<char>,
    mission: (SourceFile, Seq<crate::tree::Node>),
    config: (SourceFile, Seq<crate::tree::Node>),
) -> Seq<AnnotationData> {
    let ext_path = spec_join(spec_join(dir, "edit_me"@), "description.ext"@);
    let sqm_path = spec_join(dir, "mission.sqm"@);
    match spec_get_number(config.1, "synixe_start_time"@) {
        None => seq![
            spec_annotation(
                Some(config.0.mapping.entries@),
                ext_path,
                config.0.content@,
                Span { start: 0, end: 0 },
                "synixe_start_time is missing"@,
                Level::Error,
            ),
        ],
        Some((start_time, _)) => if !(0 <= start_time <= 24) {
            seq![
                spec_annotation(
                    Some(config.0.mapping.entries@),
                    ext_path,
                    config.0.content@,
                    Span { start: 0, end: 0 },
                    "synixe_start_time is not between 0 and 24"@,
                    Level::Error,
                ),
            ]
        } else {
            match spec_get_class(mission.1, "Mission.Intel"@) {
                None => seq![
                    spec_annotation(
                        Some(mission.0.mapping.entries@),
                        sqm_path,
                        mission.0.content@,
                        Span { start: 0, end: 0 },
                        "Mission >> Intel is missing"@,
                        Level::Error,
                    ),
                ],
                Some(intel) => match spec_get_number(intel.children_seq(), "hour"@) {
                    None => seq![
                        spec_annotation(
                            Some(mission.0.mapping.entries@),
                            sqm_path,
                            mission.0.content@,
                            Span { start: 0, end: 0 },
                            "Mission >> Intel >> hour is missing"@,
                            Level::Error,
                        ),
                    ],
                    Some((hour, hour_span)) => if !(hour + 1 == start_time || (hour == 23
                        && start_time == 0)) {
                        seq![
                            spec_annotation(
                                Some(mission.0.mapping.entries@),
                                sqm_path,
                                mission.0.content@,
                                hour_span,
                                "Mission >> Intel >> hour needs to be 1 hour before synixe_start_time"@,
                                Level::Error,
                            ),
                        ]
                    } else {
                        Seq::empty()
                    },
                },
            }
        },
    }
}

/// Checks that the mission's in-game hour is one hour before the announced
/// start time (with midnight wrapping 23 to 0), reporting a missing start
/// time, one out of range, a missing intel class, and a missing or
/// mismatched hour.
pub fn time(
    dir: &str,
    mission: (&SourceFile, &Document),
    config: (&SourceFile, &Document),
) -> (r: Vec<Annotation>)
    requires
        mission.0.wf(),
        config.0.wf(),
    ensures
        r.deep_view() == spec_time(dir@, (*mission.0, mission.1.nodes@), (*config.0, config.1.nodes@)),
{
    let ext_path = join_path(join_path(dir, "edit_me").as_str(), "description.ext");
    let sqm_path = join_path(dir, "mission.sqm");
    let mut messages: Vec<Annotation> = Vec::new();
    let Some((synixe_start_time, _)) = get_number(config.1, "synixe_start_time") else {
        messages.push(
            Annotation::new(
                Some(&config.0.mapping),
                ext_path,
                config.0.content.as_str(),
                Span { start: 0, end: 0 },
                String::from_str("synixe_start_time is missing"),
                Level::Error,
            ),
        );
        proof {
            assert(messages.deep_view() =~= spec_time(
                dir@,
                (*mission.0, mission.1.nodes@),
                (*config.0, config.1.nodes@),
            ));
        }
        return messages;
    };
    if !(0 <= synixe_start_time && synixe_start_time <= 24) {
        messages.push(
            Annotation::new(
                Some(&config.0.mapping),
                ext_path,
                config.0.content.as_str(),
                Span { start: 0, end: 0 },
                String::from_str("synixe_start_time is not between 0 and 24"),
                Level::Error,
            ),
        );
        proof {
            assert(messages.deep_view() =~= spec_time(
                dir@,
                (*mission.0, mission.1.nodes@),
                (*config.0, config.1.nodes@),
            ));
        }
        return messages;
    }
    let Some(mission_intel) = get_class(mission.1, "Mission.Intel") else {
        messages.push(
            Annotation::new(
                Some(&mission.0.mapping),
                sqm_path,
                mission.0.content.as_str(),
                Span { start: 0, end: 0 },
                String::from_str("Mission >> Intel is missing"),
                Level::Error,
            ),
        );
        proof {
            assert(messages.deep_view() =~= spec_time(
                dir@,
                (*mission.0, mission.1.nodes@),
                (*config.0, config.1.nodes@),
            ));
        }
        return messages;
    };
    let Some((mission_hour, mission_hour_span)) = get_number(mission_intel, "hour") else {
        messages.push(
            Annotation::new(
                Some(&mission.0.mapping),
                sqm_path,
                mission.0.content.as_str(),
                Span { start: 0, end: 0 },
                String::from_str("Mission >> Intel >> hour is missing"),
                Level::Error,
            ),
        );
        proof {
            assert(messages.deep_view() =~= spec_time(
                dir@,
                (*mission.0, mission.1.nodes@),
                (*config.0, config.1.nodes@),
            ));
        }
        return messages;
    };
    let matches_start = (mission_hour as i64) + 1 == (synixe_start_time as i64) || (mission_hour
        == 23 && synixe_start_time == 0);
    if !matches_start {
        messages.push(
            Annotation::new(
                Some(&mission.0.mapping),
                sqm_path,
                mission.0.content.as_str(),
                mission_hour_span,
                String::from_str(
                    "Mission >> Intel >> hour needs to be 1 hour before synixe_start_time",
                ),
                Level::Error,
            ),
        );
    }
    proof {
        assert(messages.deep_view() =~= spec_time(
            dir@,
            (*mission.0, mission.1.nodes@),
            (*config.0, config.1.nodes@),
        ));
    }
    messages
}

} // verus!

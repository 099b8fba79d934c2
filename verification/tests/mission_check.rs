//! Tests of the whole-mission validation entry point.

use missionreviewer::annotation::{Mapping, SourceFile};
use missionreviewer::checks::HardFailure;
use missionreviewer::mission::{check, template_version};
use missionreviewer::tree::{Document, Node, Span, Value};
use missionreviewer::versions::v3::BriefingFile;

fn sp(start: usize, end: usize) -> Span {
    Span { start, end }
}

fn entry_str(name: &str, value: &str, span: Span) -> Node {
    Node::Entry { name: name.to_string(), value: Value::Str { value: value.to_string(), span } }
}

fn entry_int(name: &str, value: i32, span: Span) -> Node {
    Node::Entry { name: name.to_string(), value: Value::Int { value, span } }
}

fn class(name: &str, children: Vec<Node>) -> Node {
    Node::Class { name: name.to_string(), parent: None, children }
}

fn source(content: &str) -> SourceFile {
    SourceFile { mapping: Mapping { entries: vec![] }, content: content.to_string() }
}

fn good_config() -> Document {
    Document {
        nodes: vec![
            entry_int("synixe_template", 2, sp(0, 1)),
            entry_int("synixe_type", 3, sp(2, 3)),
            entry_int("synixe_start_time", 10, sp(4, 6)),
            entry_str("OnLoadName", "A Name", sp(7, 13)),
            entry_str("OnLoadMission", "One sentence without period", sp(14, 41)),
            entry_str("author", "Someone", sp(42, 49)),
        ],
    }
}

fn good_mission() -> Document {
    Document {
        nodes: vec![class(
            "Mission",
            vec![
                class("Intel", vec![entry_int("hour", 9, sp(0, 1))]),
                class("Entities", vec![]),
            ],
        )],
    }
}

#[test]
fn template_version_defaults_to_two() {
    assert_eq!(template_version(&good_config()), 2);
    assert_eq!(template_version(&Document { nodes: vec![] }), 2);
    let v3 = Document { nodes: vec![entry_int("synixe_template", 3, sp(0, 1))] };
    assert_eq!(template_version(&v3), 3);
}

#[test]
fn clean_special_mission_passes() {
    // type 3 runs only the spawner and player rules; one player expected
    let mission = Document {
        nodes: vec![class(
            "Mission",
            vec![
                class("Intel", vec![entry_int("hour", 9, sp(0, 1))]),
                class(
                    "Entities",
                    vec![class(
                        "P",
                        vec![
                            entry_str("dataType", "Object", sp(0, 6)),
                            class("Attributes", vec![entry_int("isPlayable", 1, sp(7, 8))]),
                        ],
                    )],
                ),
            ],
        )],
    };
    let src = source("");
    let msgs = check(
        2,
        "contracts/SCO1_Quiet",
        "SCO1_Quiet",
        (&src, &mission),
        (&src, &good_config()),
        &Vec::<BriefingFile>::new(),
    )
    .expect("a sound document is not a hard failure");
    assert_eq!(msgs.len(), 0);
}

#[test]
fn unknown_template_and_type_are_reported() {
    let config = Document {
        nodes: vec![
            entry_int("synixe_template", 7, sp(0, 1)),
            entry_int("synixe_type", 9, sp(2, 3)),
            entry_int("synixe_start_time", 10, sp(4, 6)),
        ],
    };
    let src = source("");
    let msgs = check(
        7,
        "contracts/CO1_X",
        "CO1_X",
        (&src, &good_mission()),
        (&src, &config),
        &Vec::<BriefingFile>::new(),
    )
    .expect("a sound document is not a hard failure");
    let texts: Vec<&str> = msgs.iter().map(|a| a.message.as_str()).collect();
    assert_eq!(texts, vec!["Unknown synixe_template 7", "Unknown synixe_type 9"]);
}

#[test]
fn missing_entities_is_a_hard_failure_of_the_run() {
    let mission = Document { nodes: vec![class("Mission", vec![])] };
    let src = source("");
    let r = check(
        2,
        "contracts/CO1_X",
        "CO1_X",
        (&src, &mission),
        (&src, &good_config()),
        &Vec::<BriefingFile>::new(),
    );
    assert_eq!(r, Err(HardFailure::MissingEntities));
}

#[test]
fn version_two_suite_runs_description_and_time() {
    // placeholder name and a mismatched hour both surface through `check`
    let config = Document {
        nodes: vec![
            entry_int("synixe_type", 3, sp(2, 3)),
            entry_int("synixe_start_time", 12, sp(4, 6)),
            entry_str("OnLoadName", "MISSION NAME", sp(7, 19)),
            entry_str("OnLoadMission", "Fine", sp(20, 24)),
            entry_str("author", "Someone", sp(25, 32)),
        ],
    };
    let src = source("");
    let msgs = check(
        2,
        "contracts/CO1_X",
        "CO1_X",
        (&src, &good_mission()),
        (&src, &config),
        &Vec::<BriefingFile>::new(),
    )
    .expect("a sound document is not a hard failure");
    let texts: Vec<&str> = msgs.iter().map(|a| a.message.as_str()).collect();
    assert_eq!(
        texts,
        vec![
            "OnLoadName is not set",
            "Mission >> Intel >> hour needs to be 1 hour before synixe_start_time",
            "Expected 1 players, found 0",
        ]
    );
}

#[test]
fn template_directories_skip_description_checks() {
    let config = Document {
        nodes: vec![
            entry_int("synixe_type", 3, sp(2, 3)),
            entry_int("synixe_start_time", 10, sp(4, 6)),
        ],
    };
    let mission = Document {
        nodes: vec![class(
            "Mission",
            vec![
                class("Intel", vec![entry_int("hour", 9, sp(0, 1))]),
                class(
                    "Entities",
                    vec![class(
                        "P",
                        vec![
                            entry_str("dataType", "Object", sp(0, 6)),
                            class("Attributes", vec![entry_int("isPlayable", 1, sp(7, 8))]),
                        ],
                    )],
                ),
            ],
        )],
    };
    let src = source("");
    let msgs = check(
        2,
        "theatres/t/TT1_Template",
        "TT1_Template",
        (&src, &mission),
        (&src, &config),
        &Vec::<BriefingFile>::new(),
    )
    .expect("a sound document is not a hard failure");
    assert_eq!(msgs.len(), 0);
}

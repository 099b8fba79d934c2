//! End-to-end tests of the two-phase rule engine.

use missionreviewer::annotation::{Level, Mapping, MapEntry, SourceFile};
use missionreviewer::checks::objects::cup_parking::CUPParking;
use missionreviewer::checks::objects::players::PlayerCheck;
use missionreviewer::checks::objects::trigger::TriggerChecks;
use missionreviewer::checks::{run_checks, HardFailure, Rule};
use missionreviewer::tree::{Document, Node, Span, Value};

fn sp(start: usize, end: usize) -> Span {
    Span { start, end }
}

fn entry_str(name: &str, value: &str, span: Span) -> Node {
    Node::Entry { name: name.to_string(), value: Value::Str { value: value.to_string(), span } }
}

fn entry_int(name: &str, value: i32, span: Span) -> Node {
    Node::Entry { name: name.to_string(), value: Value::Int { value, span } }
}

fn class(name: &str, children: Vec<Node>) -> Node {
    Node::Class { name: name.to_string(), parent: None, children }
}

fn source(content: &str) -> SourceFile {
    SourceFile { mapping: Mapping { entries: vec![] }, content: content.to_string() }
}

fn mission_doc(entities: Vec<Node>) -> Document {
    Document { nodes: vec![class("Mission", vec![class("Entities", entities)])] }
}

#[test]
fn absent_entity_container_is_a_hard_failure() {
    let doc = Document { nodes: vec![class("Mission", vec![])] };
    let src = source("");
    let r = run_checks("m", vec![Rule::CupParking(CUPParking::new())], (&src, &doc));
    assert_eq!(r, Err(HardFailure::MissingEntities));
}

#[test]
fn empty_entity_container_is_a_clean_run() {
    // present but empty: valid, and a counting rule reports its expectation
    let doc = mission_doc(vec![]);
    let src = source("");
    let r = run_checks(
        "m",
        vec![Rule::Players(PlayerCheck::new("CO1_Empty", true))],
        (&src, &doc),
    )
    .expect("an empty container is not a failure");
    assert_eq!(r.len(), 1);
    assert_eq!(r[0].message, "Expected 1 players, found 0");
    let quiet = run_checks("m", vec![Rule::CupParking(CUPParking::new())], (&src, &doc))
        .expect("an empty container is not a failure");
    assert_eq!(quiet.len(), 0);
}

#[test]
fn one_forbidden_entity_yields_one_error() {
    let doc = mission_doc(vec![class(
        "Item0",
        vec![
            entry_str("dataType", "Object", sp(0, 6)),
            entry_str("type", "CUP_sign_parking", sp(7, 23)),
        ],
    )]);
    let src = source("");
    let r = run_checks("m", vec![Rule::CupParking(CUPParking::new())], (&src, &doc))
        .expect("run should succeed");
    assert_eq!(r.len(), 1);
    assert_eq!(r[0].level, Level::Error);
}

#[test]
fn paired_link_with_missing_attribute_yields_one_diagnostic() {
    // trigger 10 and waypoint 20, linked; the trigger has no interval entry
    let trigger = class(
        "Item0",
        vec![
            entry_str("dataType", "Trigger", sp(0, 7)),
            entry_int("id", 10, sp(8, 10)),
            entry_int("isServerOnly", 1, sp(11, 12)),
            class("Attributes", vec![entry_str("type", "NONE", sp(13, 17))]),
        ],
    );
    let waypoint = class(
        "Item1",
        vec![
            entry_str("dataType", "Waypoint", sp(18, 26)),
            entry_int("id", 20, sp(27, 29)),
            entry_str("type", "Move", sp(30, 34)),
        ],
    );
    let link = class(
        "Item0",
        vec![
            class("CustomData", vec![entry_str("type", "WaypointActivation", sp(35, 53))]),
            entry_int("item0", 10, sp(54, 56)),
            entry_int("item1", 20, sp(57, 59)),
        ],
    );
    let doc = Document {
        nodes: vec![class(
            "Mission",
            vec![
                class("Entities", vec![trigger, waypoint]),
                class("Connections", vec![class("Links", vec![link])]),
            ],
        )],
    };
    let src = source("x");
    let r = run_checks("m", vec![Rule::Triggers(TriggerChecks::new())], (&src, &doc))
        .expect("run should succeed");
    assert_eq!(r.len(), 1);
    assert_eq!(r[0].message, "Trigger interval is set too low (below 0.5 seconds)");
    assert_eq!(r[0].start_line, 1);
    assert_eq!(r[0].start_column, 1);
    assert_eq!(r[0].end_line, 1);
    assert_eq!(r[0].end_column, 1);
}

#[test]
fn unresolved_link_is_silently_ignored() {
    // neither reference matches a recorded id: no paired diagnostic at all
    let trigger = class(
        "Item0",
        vec![entry_str("dataType", "Trigger", sp(0, 7)), entry_int("id", 10, sp(8, 10))],
    );
    let link = class(
        "Item0",
        vec![
            class("CustomData", vec![entry_str("type", "WaypointActivation", sp(11, 29))]),
            entry_int("item0", 77, sp(30, 32)),
            entry_int("item1", 78, sp(33, 35)),
        ],
    );
    let doc = Document {
        nodes: vec![class(
            "Mission",
            vec![
                class("Entities", vec![trigger]),
                class("Connections", vec![class("Links", vec![link])]),
            ],
        )],
    };
    let src = source("");
    let r = run_checks("m", vec![Rule::Triggers(TriggerChecks::new())], (&src, &doc))
        .expect("run should succeed");
    assert_eq!(r.len(), 0);
}

#[test]
fn walk_is_preorder_in_declaration_order() {
    // two player slots with wrong descriptions, one nested inside a group:
    // the message order shows the nested entity was visited before the
    // later sibling, through the mapped spans of their descriptions
    let slot = |desc_span: Span| {
        class(
            "P",
            vec![
                entry_str("dataType", "Object", sp(0, 6)),
                class(
                    "Attributes",
                    vec![
                        entry_int("isPlayable", 1, sp(0, 1)),
                        entry_str("description", "Wrong", desc_span),
                    ],
                ),
                entry_str("type", "synixe_contractors_Unit_I_Contractor", sp(0, 36)),
            ],
        )
    };
    let group = class(
        "G",
        vec![
            entry_str("dataType", "Group", sp(0, 5)),
            class("Entities", vec![slot(sp(100, 101))]),
        ],
    );
    let doc = mission_doc(vec![group, slot(sp(200, 201))]);
    let mapping = Mapping {
        entries: vec![
            MapEntry {
                processed_start: 100,
                processed_end: 102,
                original_start_line: 10,
                original_start_column: 1,
                original_end_line: 10,
                original_end_column: 2,
            },
            MapEntry {
                processed_start: 200,
                processed_end: 202,
                original_start_line: 20,
                original_start_column: 1,
                original_end_line: 20,
                original_end_column: 2,
            },
        ],
    };
    let src = SourceFile { mapping, content: String::new() };
    let r = run_checks(
        "m",
        vec![Rule::Players(PlayerCheck::new("CO2_Order", true))],
        (&src, &doc),
    )
    .expect("run should succeed");
    assert_eq!(r.len(), 2);
    assert_eq!(r[0].start_line, 10);
    assert_eq!(r[1].start_line, 20);
}

#[test]
fn low_interval_and_hold_pairing_are_flagged() {
    // interval 0.55 seconds sits below the 0.6 floor; an ACTIVATE trigger
    // on a Hold waypoint is flagged too
    let trigger = class(
        "Item0",
        vec![
            entry_str("dataType", "Trigger", sp(0, 7)),
            entry_int("id", 1, sp(8, 9)),
            entry_int("isServerOnly", 1, sp(10, 11)),
            Node::Entry {
                name: "interval".to_string(),
                value: Value::Float { milli: 550, span: sp(12, 16) },
            },
            class("Attributes", vec![entry_str("type", "ACTIVATE", sp(17, 25))]),
        ],
    );
    let waypoint = class(
        "Item1",
        vec![
            entry_str("dataType", "Waypoint", sp(26, 34)),
            entry_int("id", 2, sp(35, 36)),
            entry_str("type", "Hold", sp(37, 41)),
        ],
    );
    let link = class(
        "Item0",
        vec![
            class("CustomData", vec![entry_str("type", "WaypointActivation", sp(42, 60))]),
            entry_int("item0", 1, sp(61, 62)),
            entry_int("item1", 2, sp(63, 64)),
        ],
    );
    let doc = Document {
        nodes: vec![class(
            "Mission",
            vec![
                class("Entities", vec![trigger, waypoint]),
                class("Connections", vec![class("Links", vec![link])]),
            ],
        )],
    };
    let src = source("");
    let r = run_checks("m", vec![Rule::Triggers(TriggerChecks::new())], (&src, &doc))
        .expect("run should succeed");
    let texts: Vec<&str> = r.iter().map(|a| a.message.as_str()).collect();
    assert_eq!(
        texts,
        vec![
            "Trigger interval is set too low (below 0.5 seconds)",
            "HOLD waypoint is linked to a trigger that isn't SKIP WAYPOINT",
        ]
    );
}

#[test]
fn same_role_resolution_is_an_explicit_conflict() {
    // both references resolve to waypoints: no trigger role exists, and the
    // rule reports the conflict instead of dropping the link
    let make_waypoint = |id: i32| {
        class(
            "W",
            vec![
                entry_str("dataType", "Waypoint", sp(0, 8)),
                entry_int("id", id, sp(9, 10)),
                entry_str("type", "Move", sp(11, 15)),
            ],
        )
    };
    let link = class(
        "L",
        vec![
            class("CustomData", vec![entry_str("type", "WaypointActivation", sp(16, 34))]),
            entry_int("item0", 1, sp(35, 36)),
            entry_int("item1", 2, sp(37, 38)),
        ],
    );
    let doc = Document {
        nodes: vec![class(
            "Mission",
            vec![
                class("Entities", vec![make_waypoint(1), make_waypoint(2)]),
                class("Connections", vec![class("Links", vec![link])]),
            ],
        )],
    };
    let src = source("");
    let r = run_checks("m", vec![Rule::Triggers(TriggerChecks::new())], (&src, &doc))
        .expect("run should succeed");
    assert_eq!(r.len(), 1);
    assert_eq!(
        r[0].message,
        "WaypointActivation link does not connect to a trigger and waypoint"
    );
}

#[test]
fn guard_waypoints_are_flagged_during_the_walk() {
    let waypoint = class(
        "W",
        vec![
            entry_str("dataType", "Waypoint", sp(0, 8)),
            entry_str("type", "Guard", sp(9, 14)),
        ],
    );
    let doc = mission_doc(vec![waypoint]);
    let src = source("");
    let r = run_checks("m", vec![Rule::Triggers(TriggerChecks::new())], (&src, &doc))
        .expect("run should succeed");
    assert_eq!(r.len(), 1);
    assert_eq!(r[0].message, "Guard waypoint is not allowed");
}

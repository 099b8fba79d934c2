//! Tests of the individual rule state machines and the flat checks.

use missionreviewer::annotation::{Level, Mapping, SourceFile};
use missionreviewer::check_prefix;
use missionreviewer::checks::description::name_summary_author;
use missionreviewer::checks::objects::cup_parking::CUPParking;
use missionreviewer::checks::objects::players::{expected_players, PlayerCheck};
use missionreviewer::checks::objects::shops::ShopCheck;
use missionreviewer::checks::objects::spawners::SpawnersCheck;
use missionreviewer::checks::objects::spectator::RequireSpectator;
use missionreviewer::checks::objects::zeus::ZeusModule;
use missionreviewer::checks::time::time;
use missionreviewer::tree::{Document, Node, Span, Value};
use missionreviewer::versions::v3::{briefing, BriefingFile};

fn sp(start: usize, end: usize) -> Span {
    Span { start, end }
}

fn entry_str(name: &str, value: &str, span: Span) -> Node {
    Node::Entry { name: name.to_string(), value: Value::Str { value: value.to_string(), span } }
}

fn entry_int(name: &str, value: i32, span: Span) -> Node {
    Node::Entry { name: name.to_string(), value: Value::Int { value, span } }
}

fn class(name: &str, children: Vec<Node>) -> Node {
    Node::Class { name: name.to_string(), parent: None, children }
}

fn source(content: &str) -> SourceFile {
    SourceFile { mapping: Mapping { entries: vec![] }, content: content.to_string() }
}

fn forbidden_sign() -> Node {
    class(
        "Item0",
        vec![
            entry_str("dataType", "Object", sp(0, 6)),
            entry_str("type", "CUP_sign_parking", sp(7, 23)),
        ],
    )
}

#[test]
fn first_match_is_idempotent() {
    // feeding the same qualifying entity twice finalizes like feeding it once
    let src = source("");
    let doc = Document { nodes: vec![] };
    let entity = forbidden_sign();
    let mut once = CUPParking::new();
    once.object((&src, &doc), "m", &entity, "Object");
    let mut twice = CUPParking::new();
    twice.object((&src, &doc), "m", &entity, "Object");
    twice.object((&src, &doc), "m", &entity, "Object");
    assert_eq!(once.done("m"), twice.done("m"));
    assert_eq!(twice.done("m").len(), 1);
}

#[test]
fn player_count_diagnostic_comes_exactly_on_mismatch() {
    let src = source("");
    let doc = Document { nodes: vec![] };
    let slot = class(
        "P",
        vec![
            entry_str("dataType", "Object", sp(0, 6)),
            class("Attributes", vec![entry_int("isPlayable", 1, sp(0, 1))]),
        ],
    );
    let mut matched = PlayerCheck::new("CO2_Test", false);
    matched.observe((&src, &doc), "m", &slot, "Object");
    matched.observe((&src, &doc), "m", &slot, "Object");
    assert_eq!(matched.done("m").len(), 0);

    let mut short = PlayerCheck::new("CO2_Test", false);
    short.observe((&src, &doc), "m", &slot, "Object");
    let msgs = short.done("m");
    assert_eq!(msgs.len(), 1);
    assert_eq!(msgs[0].message, "Expected 2 players, found 1");
    assert_eq!(msgs[0].level, Level::Error);
}

#[test]
fn expected_players_reads_the_directory_name() {
    assert_eq!(expected_players("CO30_Brett_Harmonics.pja308"), 30);
    assert_eq!(expected_players("SCO8_Something"), 8);
    assert_eq!(expected_players("NoUnderscore"), 1);
    assert_eq!(expected_players("XYZ_NoDigits"), 1);
    assert_eq!(expected_players("CO99999999999999999999999999_Huge"), 1);
}

#[test]
fn shops_report_absence_and_shortage() {
    let src = source("");
    let doc = Document { nodes: vec![] };
    let shop = class(
        "S",
        vec![
            entry_str("dataType", "Object", sp(0, 6)),
            class(
                "CustomAttributes",
                vec![class(
                    "Attribute0",
                    vec![entry_str("property", "crate_client_gear_attribute_shop", sp(0, 1))],
                )],
            ),
        ],
    );
    let none = ShopCheck::new();
    let msgs = none.done("m");
    assert_eq!(msgs.len(), 1);
    assert_eq!(msgs[0].message, "No shops found");

    let mut one = ShopCheck::new();
    one.observe((&src, &doc), "m", &shop, "Object");
    let msgs = one.done("m");
    assert_eq!(msgs.len(), 1);
    assert_eq!(msgs[0].message, "Not enough shops found, at least 2 are required");

    let mut two = ShopCheck::new();
    two.observe((&src, &doc), "m", &shop, "Object");
    two.observe((&src, &doc), "m", &shop, "Object");
    assert_eq!(two.done("m").len(), 0);
}

#[test]
fn simple_object_shops_are_flagged() {
    let src = source("0123456789");
    let doc = Document { nodes: vec![] };
    let shop = class(
        "S",
        vec![
            entry_str("dataType", "Object", sp(0, 6)),
            class("Attributes", vec![entry_int("createAsSimpleObject", 1, sp(2, 3))]),
            class(
                "CustomAttributes",
                vec![class(
                    "Attribute0",
                    vec![entry_str("property", "crate_client_gear_attribute_shop", sp(0, 1))],
                )],
            ),
        ],
    );
    let mut check = ShopCheck::new();
    check.observe((&src, &doc), "m", &shop, "Object");
    check.observe((&src, &doc), "m", &shop, "Object");
    let msgs = check.done("m");
    // the attribute test runs twice per shop, as the engine has always done
    assert_eq!(msgs.len(), 4);
    assert!(msgs.iter().all(|a| a.message == "shops must not be simple objects"));
}

#[test]
fn spawners_expected_and_forbidden() {
    let src = source("");
    let doc = Document { nodes: vec![] };
    let land = class(
        "L",
        vec![
            entry_str("dataType", "Marker", sp(0, 6)),
            entry_str("name", "spawn_land", sp(7, 17)),
        ],
    );
    let air = class(
        "A",
        vec![
            entry_str("dataType", "Marker", sp(0, 6)),
            entry_str("name", "spawn_air", sp(7, 16)),
        ],
    );

    // expected: missing land and thing spawners are reported
    let expected = SpawnersCheck::new(true, 2, false);
    let msgs = expected.done("m");
    assert_eq!(msgs.len(), 2);
    assert_eq!(msgs[0].message, "No land spawner found");
    assert_eq!(msgs[1].message, "No thing spawner found");

    // acknowledged: silence
    let acknowledged = SpawnersCheck::new(true, 2, true);
    assert_eq!(acknowledged.done("m").len(), 0);

    // not allowed: each category found is reported
    let mut forbidden = SpawnersCheck::new(false, 2, false);
    forbidden.object((&src, &doc), "m", &land, "Marker");
    forbidden.object((&src, &doc), "m", &air, "Marker");
    let msgs = forbidden.done("m");
    assert_eq!(msgs.len(), 2);
    assert_eq!(
        msgs[0].message,
        "Land spawner found, but spawners are not allowed on this mission type"
    );
    assert_eq!(
        msgs[1].message,
        "Air spawner found, but spawners are not allowed on this mission type"
    );

    // version 3 watches objects, not markers
    let mut v3 = SpawnersCheck::new(false, 3, false);
    v3.object((&src, &doc), "m", &land, "Marker");
    assert_eq!(v3.done("m").len(), 0);
}

#[test]
fn spectator_and_zeus_flags() {
    let src = source("");
    let doc = Document { nodes: vec![] };
    let screen = class(
        "S",
        vec![
            entry_str("dataType", "Object", sp(0, 6)),
            entry_str("type", "synixe_spectator_screen", sp(7, 30)),
        ],
    );
    let curator = class(
        "Z",
        vec![
            entry_str("dataType", "Logic", sp(0, 5)),
            entry_str("type", "ModuleCurator_F", sp(6, 21)),
        ],
    );

    let absent = RequireSpectator::new();
    let msgs = absent.done("m");
    assert_eq!(msgs.len(), 1);
    assert_eq!(msgs[0].message, "No spectator screen found");
    let mut seen = RequireSpectator::new();
    seen.observe((&src, &doc), "m", &screen, "Object");
    assert_eq!(seen.done("m").len(), 0);

    let mut zeus = ZeusModule::new();
    zeus.object((&src, &doc), "m", &curator, "Logic");
    let msgs = zeus.done("m");
    assert_eq!(msgs.len(), 1);
    assert!(msgs[0].message.starts_with("Zeus modules should not be placed"));
    // the wrong discriminator does not count
    let mut not_logic = ZeusModule::new();
    not_logic.object((&src, &doc), "m", &curator, "Object");
    assert_eq!(not_logic.done("m").len(), 0);
}

#[test]
fn time_matches_hour_against_start_time() {
    let src = source("");
    let config_ok = Document { nodes: vec![entry_int("synixe_start_time", 10, sp(0, 2))] };
    let mission_ok = Document {
        nodes: vec![class("Mission", vec![class("Intel", vec![entry_int("hour", 9, sp(3, 4))])])],
    };
    assert_eq!(time("m", (&src, &mission_ok), (&src, &config_ok)).len(), 0);

    // midnight wraps
    let config_mid = Document { nodes: vec![entry_int("synixe_start_time", 0, sp(0, 1))] };
    let mission_mid = Document {
        nodes: vec![class("Mission", vec![class("Intel", vec![entry_int("hour", 23, sp(3, 5))])])],
    };
    assert_eq!(time("m", (&src, &mission_mid), (&src, &config_mid)).len(), 0);

    let mission_bad = Document {
        nodes: vec![class("Mission", vec![class("Intel", vec![entry_int("hour", 10, sp(3, 5))])])],
    };
    let msgs = time("m", (&src, &mission_bad), (&src, &config_ok));
    assert_eq!(msgs.len(), 1);
    assert_eq!(
        msgs[0].message,
        "Mission >> Intel >> hour needs to be 1 hour before synixe_start_time"
    );

    let missing = Document { nodes: vec![] };
    let msgs = time("m", (&src, &mission_ok), (&src, &missing));
    assert_eq!(msgs.len(), 1);
    assert_eq!(msgs[0].message, "synixe_start_time is missing");

    let config_range = Document { nodes: vec![entry_int("synixe_start_time", 25, sp(0, 2))] };
    let msgs = time("m", (&src, &mission_ok), (&src, &config_range));
    assert_eq!(msgs.len(), 1);
    assert_eq!(msgs[0].message, "synixe_start_time is not between 0 and 24");

    let no_intel = Document { nodes: vec![class("Mission", vec![])] };
    let msgs = time("m", (&src, &no_intel), (&src, &config_ok));
    assert_eq!(msgs.len(), 1);
    assert_eq!(msgs[0].message, "Mission >> Intel is missing");

    let no_hour = Document { nodes: vec![class("Mission", vec![class("Intel", vec![])])] };
    let msgs = time("m", (&src, &no_hour), (&src, &config_ok));
    assert_eq!(msgs.len(), 1);
    assert_eq!(msgs[0].message, "Mission >> Intel >> hour is missing");
}

#[test]
fn description_placeholders_are_flagged() {
    let src = source("");
    let config = Document {
        nodes: vec![
            entry_str("OnLoadName", "MISSION NAME", sp(0, 12)),
            entry_str("OnLoadMission", "Two sentences. Not one.", sp(13, 36)),
            entry_str("author", "YOUR NAME HERE", sp(37, 51)),
        ],
    };
    let msgs = name_summary_author("m", (&src, &config));
    let texts: Vec<&str> = msgs.iter().map(|a| a.message.as_str()).collect();
    assert_eq!(
        texts,
        vec!["OnLoadName is not set", "OnLoadMission ends with a period", "author is not set"]
    );

    let empty = Document { nodes: vec![] };
    let msgs = name_summary_author("m", (&src, &empty));
    let texts: Vec<&str> = msgs.iter().map(|a| a.message.as_str()).collect();
    assert_eq!(
        texts,
        vec!["OnLoadName is missing", "OnLoadMission is missing", "author is missing"]
    );

    let run_on = Document {
        nodes: vec![
            entry_str("OnLoadName", "A Fine Name", sp(0, 11)),
            entry_str("OnLoadMission", "Two sentences. Not one", sp(12, 34)),
            entry_str("author", "Someone", sp(35, 42)),
        ],
    };
    let msgs = name_summary_author("m", (&src, &run_on));
    assert_eq!(msgs.len(), 1);
    assert_eq!(msgs[0].message, "OnLoadMission should be a single sentence");
    assert_eq!(msgs[0].level, Level::Warning);
}

#[test]
fn prefixes_gate_directory_names() {
    let ok = check_prefix("contracts/CO10_X", "CO10_X", true, false).unwrap();
    assert_eq!(ok.len(), 0);
    let ok = check_prefix("campaigns/c/TCO10_X", "TCO10_X", true, true).unwrap();
    assert_eq!(ok.len(), 0);
    let bad = check_prefix("contracts/XX10", "XX10", true, false).unwrap();
    assert_eq!(bad.len(), 1);
    assert_eq!(bad[0].message, "Invalid prefix for contracts/XX10");
    let not_dir = check_prefix("contracts/file.txt", "file.txt", false, false).unwrap();
    assert_eq!(not_dir.len(), 1);
    assert_eq!(not_dir[0].message, "Not a directory");
}

#[test]
fn briefing_files_are_checked() {
    let files = vec![
        BriefingFile {
            path: "m/edit_me/briefing/notes.txt".to_string(),
            name: "notes.txt".to_string(),
            extension: Some("txt".to_string()),
            content: "INSERT SITUATION".to_string(),
        },
        BriefingFile {
            path: "m/edit_me/briefing/situation.html".to_string(),
            name: "situation.html".to_string(),
            extension: Some("html".to_string()),
            content: "x".repeat(1901),
        },
        BriefingFile {
            path: "m/edit_me/briefing/mission.html".to_string(),
            name: "mission.html".to_string(),
            extension: Some("html".to_string()),
            content: "y".repeat(1000),
        },
        BriefingFile {
            path: "m/edit_me/briefing/objectives.html".to_string(),
            name: "objectives.html".to_string(),
            extension: Some("html".to_string()),
            content: "z".repeat(1000),
        },
    ];
    let msgs = briefing("m", &files);
    let texts: Vec<&str> = msgs.iter().map(|a| a.message.as_str()).collect();
    assert_eq!(
        texts,
        vec![
            "Briefing file is not an HTML file",
            "Briefing file is not edited",
            "Situation briefing is too long for Discord",
            "Combined briefing (mission & objectives) is too long for Discord",
        ]
    );
}

//! One mission's full validation: version dispatch, the per-version check
//! suite, and the entity rules chosen by the mission's announced type. The
//! caller parses the two documents and gathers the briefing files; from
//! there everything is computed here.

use vstd::prelude::*;

use crate::annotation::{spec_annotation, Annotation, AnnotationData, Level, SourceFile};
use crate::checks::objects::players::{spec_expected, PlayerCheck, PlayerCheckView};
use crate::checks::objects::shops::{ShopCheck, ShopCheckView};
use crate::checks::objects::spawners::{SpawnersCheck, SpawnersCheckView};
use crate::checks::objects::spectator::RequireSpectator;
use crate::checks::objects::{run_over_entities, spec_run_over_entities};
use crate::checks::{HardFailure, Rule, RuleView};
use crate::text::{join_path, spec_dec_signed, spec_join, write_dec_signed};
use crate::tree::{Document, Node, Span};
use crate::versions::v3::{BriefingFile, BriefingFileView};
use crate::{get_number, spec_get_class, spec_get_number};

verus! {

/// The template version a configuration announces: its `synixe_template`
/// integer entry, or 2 when the entry is absent.
pub open spec fn spec_template_version(doc: Seq<Node>) -> i32 {
    match spec_get_number(doc, "synixe_template"@) {
        Some((v, _)) => v,
        None => 2,
    }
}

/// Reads the announced template version out of a configuration.
pub fn template_version(config: &Document) -> (r: i32)
    ensures
        r == spec_template_version(config.nodes@),
{
    match get_number(config, "synixe_template") {
        Some((v, _)) => v,
        None => 2,
    }
}

/// The initial rule set for a mission's announced type: contracts and
/// sub-contracts get the full set, trainings forgo the spectator screen,
/// specials only count players; an unknown type gets no rules at all.
pub open spec fn spec_rule_set(
    dir_name: Seq<char>,
    synixe_type: i32,
    version: i32,
    ack_land: bool,
) -> Seq<RuleView> {
    let spawner_type: Seq<char> = if version == 3 {
        "Object"@
    } else {
        "Marker"@
    };
    let players_req = RuleView::Players(
        PlayerCheckView {
            count: 0,
            expected: spec_expected(dir_name),
            require_contractors: true,
            messages: Seq::empty(),
        },
    );
    let players_free = RuleView::Players(
        PlayerCheckView {
            count: 0,
            expected: spec_expected(dir_name),
            require_contractors: false,
            messages: Seq::empty(),
        },
    );
    let shops = RuleView::Shops(ShopCheckView { messages: Seq::empty(), count: 0 });
    let spawners_on = RuleView::Spawners(
        SpawnersCheckView {
            count_land: 0,
            count_air: 0,
            count_sea: 0,
            count_thing: 0,
            data_type: spawner_type,
            expected: true,
            acknowledged_land: ack_land,
        },
    );
    let spawners_off = RuleView::Spawners(
        SpawnersCheckView {
            count_land: 0,
            count_air: 0,
            count_sea: 0,
            count_thing: 0,
            data_type: spawner_type,
            expected: false,
            acknowledged_land: false,
        },
    );
    if synixe_type == 0 || synixe_type == 1 {
        seq![players_req, shops, RuleView::Spectator(false), spawners_on]
    } else if synixe_type == 2 {
        seq![players_req, shops, spawners_off]
    } else if synixe_type == 3 {
        seq![spawners_off, players_free]
    } else {
        Seq::empty()
    }
}

/// The message naming an unknown template version.
pub open spec fn spec_unknown_template_msg(version: int) -> Seq<char> {
    "Unknown synixe_template "@ + spec_dec_signed(version)
}

/// The message naming an unknown mission type.
pub open spec fn spec_unknown_type_msg(synixe_type: int) -> Seq<char> {
    "Unknown synixe_type "@ + spec_dec_signed(synixe_type)
}

/// The version-suite diagnostics of a run.
pub open spec fn spec_version_msgs(
    version: i32,
    dir: Seq<char>,
    dir_name: Seq<char>,
    mission: (SourceFile, Seq<Node>),
    config: (SourceFile, Seq<Node>),
    files: Seq<BriefingFileView>,
) -> Seq<AnnotationData> {
    if version == 2 {
        crate::versions::v2::spec_check(dir, dir_name, mission, config)
    } else if version == 3 {
        crate::versions::v3::spec_check(dir, dir_name, mission, config, files)
    } else {
        seq![
            spec_annotation(
                Some(config.0.mapping.entries@),
                spec_join(spec_join(dir, "do_not_edit"@), "description.ext"@),
                config.0.content@,
                Span { start: 0, end: 0 },
                spec_unknown_template_msg(version as int),
                Level::Error,
            ),
        ]
    }
}

/// The mission type and its span: the `synixe_type` entry, or 0 at a zero
/// span when the entry is absent.
pub open spec fn spec_synixe_type(config: Seq<Node>) -> (i32, Span) {
    match spec_get_number(config, "synixe_type"@) {
        Some(x) => x,
        None => (0, Span { start: 0, end: 0 }),
    }
}

/// The unknown-type diagnostic, for a type outside the known four.
pub open spec fn spec_type_msgs(
    dir: Seq<char>,
    config: (SourceFile, Seq<Node>),
) -> Seq<AnnotationData> {
    let synixe_type = spec_synixe_type(config.1).0;
    let span = spec_synixe_type(config.1).1;
    if 0 <= synixe_type <= 3 {
        Seq::empty()
    } else {
        seq![
            spec_annotation(
                Some(config.0.mapping.entries@),
                spec_join(spec_join(dir, "edit_me"@), "description.ext"@),
                config.0.content@,
                span,
                spec_unknown_type_msg(synixe_type as int),
                Level::Error,
            ),
        ]
    }
}

/// Whether the configuration acknowledges going without land vehicles.
pub open spec fn spec_no_vehicles(config: Seq<Node>) -> bool {
    match spec_get_number(config, "synixe_no_vehicles"@) {
        Some((v, _)) => v == 1,
        None => false,
    }
}

/// Everything a whole mission validation returns when the document is
/// structurally sound: the version suite's diagnostics, one message for an
/// unknown mission type, then the entity rules' findings.
pub open spec fn spec_check_mission(
    version: i32,
    dir: Seq<char>,
    dir_name: Seq<char>,
    mission: (SourceFile, Seq<Node>),
    config: (SourceFile, Seq<Node>),
    files: Seq<BriefingFileView>,
) -> Seq<AnnotationData> {
    let rvs = spec_rule_set(dir_name, spec_synixe_type(config.1).0, version, spec_no_vehicles(config.1));
    spec_version_msgs(version, dir, dir_name, mission, config, files) + spec_type_msgs(dir, config)
        + spec_run_over_entities(rvs, mission.0, dir, mission.1)
}

/// Validates one mission: dispatches on the template version the caller
/// read (see `template_version`), reads the announced mission type, builds
/// the matching rule set, and drives it over the mission's entities. A
/// mission document without its entity container is the hard failure.
pub fn check(
    version: i32,
    dir: &str,
    dir_name: &str,
    mission: (&SourceFile, &Document),
    config: (&SourceFile, &Document),
    files: &Vec<BriefingFile>,
) -> (r: Result<Vec<Annotation>, HardFailure>)
    requires
        mission.0.wf(),
        config.0.wf(),
    ensures
        match r {
            Ok(msgs) => spec_get_class(mission.1.nodes@, "Mission.Entities"@) is Some
                && msgs.deep_view() == spec_check_mission(
                version,
                dir@,
                dir_name@,
                (*mission.0, mission.1.nodes@),
                (*config.0, config.1.nodes@),
                files.deep_view(),
            ),
            Err(_) => spec_get_class(mission.1.nodes@, "Mission.Entities"@) is None,
        },
{
    let mut messages: Vec<Annotation> = Vec::new();
    if version == 2 {
        let mut head = crate::versions::v2::check(dir, dir_name, mission, config);
        let ghost head_view = head.deep_view();
        messages.append(&mut head);
        proof {
            assert(messages.deep_view() =~= head_view);
        }
    } else if version == 3 {
        let mut head = crate::versions::v3::check(dir, dir_name, mission, config, files);
        let ghost head_view = head.deep_view();
        messages.append(&mut head);
        proof {
            assert(messages.deep_view() =~= head_view);
        }
    } else {
        let mut msg = String::from_str("Unknown synixe_template ");
        write_dec_signed(&mut msg, version);
        let a = Annotation::new(
            Some(&config.0.mapping),
            join_path(join_path(dir, "do_not_edit").as_str(), "description.ext"),
            config.0.content.as_str(),
            Span { start: 0, end: 0 },
            msg,
            Level::Error,
        );
        messages.push(a);
        proof {
            assert(messages.deep_view() =~= seq![a@]);
        }
    }
    proof {
        assert(messages.deep_view() == spec_version_msgs(
            version,
            dir@,
            dir_name@,
            (*mission.0, mission.1.nodes@),
            (*config.0, config.1.nodes@),
            files.deep_view(),
        ));
    }
    let (synixe_type, synixe_type_span) = match get_number(config.1, "synixe_type") {
        Some(x) => x,
        None => (0, Span { start: 0, end: 0 }),
    };
    let ack = match get_number(config.1, "synixe_no_vehicles") {
        Some((v, _)) => v == 1,
        None => false,
    };
    let spawner_version: u8 = if version == 3 {
        3
    } else {
        2
    };
    let mut rules: Vec<Rule> = Vec::new();
    if synixe_type == 0 || synixe_type == 1 {
        rules.push(Rule::Players(PlayerCheck::new(dir_name, true)));
        rules.push(Rule::Shops(ShopCheck::new()));
        rules.push(Rule::Spectator(RequireSpectator::new()));
        rules.push(Rule::Spawners(SpawnersCheck::new(true, spawner_version, ack)));
    } else if synixe_type == 2 {
        rules.push(Rule::Players(PlayerCheck::new(dir_name, true)));
        rules.push(Rule::Shops(ShopCheck::new()));
        rules.push(Rule::Spawners(SpawnersCheck::new(false, spawner_version, false)));
    } else if synixe_type == 3 {
        rules.push(Rule::Spawners(SpawnersCheck::new(false, spawner_version, false)));
        rules.push(Rule::Players(PlayerCheck::new(dir_name, false)));
    } else {
        let mut msg = String::from_str("Unknown synixe_type ");
        write_dec_signed(&mut msg, synixe_type);
        let ghost before = messages.deep_view();
        let a = Annotation::new(
            Some(&config.0.mapping),
            join_path(join_path(dir, "edit_me").as_str(), "description.ext"),
            config.0.content.as_str(),
            synixe_type_span,
            msg,
            Level::Error,
        );
        messages.push(a);
        proof {
            assert(messages.deep_view() =~= before + seq![a@]);
        }
    }
    proof {
        assert(rules.deep_view() =~= spec_rule_set(
            dir_name@,
            spec_synixe_type(config.1.nodes@).0,
            version,
            spec_no_vehicles(config.1.nodes@),
        ));
        if 0 <= synixe_type <= 3 {
            assert(messages.deep_view() + Seq::<AnnotationData>::empty() =~= messages.deep_view());
        }
    }
    match run_over_entities(dir, rules, mission) {
        Err(e) => Err(e),
        Ok(mut found) => {
            let ghost before = messages.deep_view();
            let ghost found_view = found.deep_view();
            messages.append(&mut found);
            proof {
                assert(messages.deep_view() =~= before + found_view);
                assert(messages.deep_view() =~= spec_check_mission(
                    version,
                    dir@,
                    dir_name@,
                    (*mission.0, mission.1.nodes@),
                    (*config.0, config.1.nodes@),
                    files.deep_view(),
                ));
            }
            Ok(messages)
        },
    }
}

} // verus!

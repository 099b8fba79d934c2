//! Rules that observe entities during the entity phase, and the entry
//! point that drives them without a link phase.

pub mod cup_parking;
pub mod players;
pub mod shops;
pub mod spawners;
pub mod spectator;
pub mod trigger;
pub mod zeus;

use vstd::prelude::*;

use crate::annotation::{Annotation, AnnotationData, SourceFile};
use crate::checks::{
    finalize_rules, process_entities, spec_entity_events, spec_outputs, spec_rule_after_entities,
    HardFailure, Rule, RuleView,
};
use crate::tree::{Document, Node};
use crate::{get_class, spec_get_class, GetChildren};

verus! {

/// Everything an entity-phase-only run returns: each rule driven over the
/// entity walk, then finalized, in registration order.
pub open spec fn spec_run_over_entities(
    rvs: Seq<RuleView>,
    m: SourceFile,
    dir: Seq<char>,
    doc: Seq<Node>,
) -> Seq<AnnotationData> {
    let entities = spec_get_class(doc, "Mission.Entities"@).unwrap();
    spec_outputs(
        rvs.map_values(
            |rv: RuleView| spec_rule_after_entities(
                rv,
                m,
                dir,
                spec_entity_events(entities.children_seq()),
            ),
        ),
        dir,
    )
}

/// Runs every rule over the entity phase alone — no links — and collects
/// their diagnostics. A document without its mandatory `Mission.Entities`
/// container is the hard failure.
pub fn run_over_entities(
    dir: &str,
    rules: Vec<Rule>,
    mission: (&SourceFile, &Document),
) -> (r: Result<Vec<Annotation>, HardFailure>)
    requires
        mission.0.wf(),
    ensures
        match r {
            Ok(msgs) => spec_get_class(mission.1.nodes@, "Mission.Entities"@) is Some
                && msgs.deep_view() == spec_run_over_entities(
                rules.deep_view(),
                *mission.0,
                dir@,
                mission.1.nodes@,
            ),
            Err(_) => spec_get_class(mission.1.nodes@, "Mission.Entities"@) is None,
        },
{
    let ghost rvs0 = rules.deep_view();
    let mut checks = rules;
    let Some(entities) = get_class(mission.1, "Mission.Entities") else {
        return Err(HardFailure::MissingEntities);
    };
    process_entities(mission, dir, &mut checks, GetChildren::get_children(entities));
    proof {
        let entities_spec = spec_get_class(mission.1.nodes@, "Mission.Entities"@).unwrap();
        let outcome = rvs0.map_values(
            |rv: RuleView| spec_rule_after_entities(
                rv,
                *mission.0,
                dir@,
                spec_entity_events(entities_spec.children_seq()),
            ),
        );
        assert(checks.deep_view() =~= outcome);
    }
    Ok(finalize_rules(&checks, dir))
}

} // verus!

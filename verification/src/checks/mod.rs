//! The rule engine: a two-phase walk over the document driving every rule,
//! then a finalize pass collecting their diagnostics.
//!
//! Phase 1 walks the document's entity tree pre-order, depth-first, in
//! declaration order, handing every entity that carries a `dataType`
//! discriminator to every rule; composite entities (`Group`, `Layer`) are
//! recursed into through their nested `Entities` container. Phase 2 walks
//! the flat links container, when one exists. Finalize asks every rule for
//! its diagnostics, in registration order, and concatenates them.

pub mod description;
pub mod objects;
pub mod time;

use vstd::prelude::*;

use crate::annotation::{Annotation, AnnotationData, SourceFile};
use crate::tree::{lemma_nodes_size_ge_member, node_size, nodes_size, Document, Node};
use crate::{get_class, get_string, spec_find_class, spec_get_class, spec_get_string, GetChildren};
use crate::checks::objects::cup_parking::CUPParking;
use crate::checks::objects::players::{PlayerCheck, PlayerCheckView};
use crate::checks::objects::shops::{ShopCheck, ShopCheckView};
use crate::checks::objects::spawners::{SpawnersCheck, SpawnersCheckView};
use crate::checks::objects::spectator::RequireSpectator;
use crate::checks::objects::trigger::{TriggerChecks, TriggerChecksView};
use crate::checks::objects::zeus::ZeusModule;

verus! {

/// A structurally invalid document: the run aborts before any rule sees it.
#[derive(Clone, Copy, Debug, PartialEq, Eq, Structural)]
pub enum HardFailure {
    /// The mandatory entity container is absent.
    MissingEntities,
}

/// One registered rule. The rule set is closed, so dispatch is a tagged
/// union and every phase handles every rule kind exhaustively.
#[derive(Debug)]
pub enum Rule {
    CupParking(CUPParking),
    Players(PlayerCheck),
    Shops(ShopCheck),
    Spawners(SpawnersCheck),
    Spectator(RequireSpectator),
    Triggers(TriggerChecks),
    Zeus(ZeusModule),
}

/// The mathematical state of one rule.
pub enum RuleView {
    CupParking(bool),
    Players(PlayerCheckView),
    Shops(ShopCheckView),
    Spawners(SpawnersCheckView),
    Spectator(bool),
    Triggers(TriggerChecksView),
    Zeus(bool),
}

impl View for Rule {
    type V = RuleView;

    open spec fn view(&self) -> RuleView {
        match self {
            Rule::CupParking(c) => RuleView::CupParking(c.seen),
            Rule::Players(c) => RuleView::Players(c@),
            Rule::Shops(c) => RuleView::Shops(c@),
            Rule::Spawners(c) => RuleView::Spawners(c@),
            Rule::Spectator(c) => RuleView::Spectator(c.seen),
            Rule::Triggers(c) => RuleView::Triggers(c@),
            Rule::Zeus(c) => RuleView::Zeus(c.seen),
        }
    }
}

impl DeepView for Rule {
    type V = RuleView;

    open spec fn deep_view(&self) -> RuleView {
        self.view()
    }
}

impl Rule {
    /// The state after one entity observation.
    pub open spec fn spec_object(
        rv: RuleView,
        m: SourceFile,
        dir: Seq<char>,
        class: Node,
        data_type: Seq<char>,
    ) -> RuleView {
        match rv {
            RuleView::CupParking(seen) => RuleView::CupParking(
                CUPParking::spec_observe(seen, class, data_type),
            ),
            RuleView::Players(v) => RuleView::Players(
                PlayerCheck::spec_observe(v, m, dir, class, data_type),
            ),
            RuleView::Shops(v) => RuleView::Shops(
                ShopCheck::spec_observe(v, m, dir, class, data_type),
            ),
            RuleView::Spawners(v) => RuleView::Spawners(
                SpawnersCheck::spec_observe(v, class, data_type),
            ),
            RuleView::Spectator(seen) => RuleView::Spectator(
                RequireSpectator::spec_observe(seen, class, data_type),
            ),
            RuleView::Triggers(v) => RuleView::Triggers(
                TriggerChecks::spec_observe(v, dir, class, data_type),
            ),
            RuleView::Zeus(seen) => RuleView::Zeus(ZeusModule::spec_observe(seen, class, data_type)),
        }
    }

    /// The state after one link observation; only the link-aware rule moves.
    pub open spec fn spec_link_step(rv: RuleView, dir: Seq<char>, link: Node) -> RuleView {
        match rv {
            RuleView::Triggers(v) => RuleView::Triggers(TriggerChecks::spec_link(v, dir, link)),
            _ => rv,
        }
    }

    /// The diagnostics a rule returns at finalize.
    pub open spec fn spec_done(rv: RuleView, dir: Seq<char>) -> Seq<AnnotationData> {
        match rv {
            RuleView::CupParking(seen) => CUPParking::spec_done(seen, dir),
            RuleView::Players(v) => PlayerCheck::spec_done(v, dir),
            RuleView::Shops(v) => ShopCheck::spec_done(v, dir),
            RuleView::Spawners(v) => SpawnersCheck::spec_done(v, dir),
            RuleView::Spectator(seen) => RequireSpectator::spec_done(seen, dir),
            RuleView::Triggers(v) => TriggerChecks::spec_done(v),
            RuleView::Zeus(seen) => ZeusModule::spec_done(seen, dir),
        }
    }

    /// Hands one entity to the rule.
    pub fn object(
        &mut self,
        mission: (&SourceFile, &Document),
        dir: &str,
        class: &Node,
        data_type: &str,
    )
        requires
            mission.0.wf(),
        ensures
            final(self)@ == Self::spec_object(old(self)@, *mission.0, dir@, *class, data_type@),
    {
        match self {
            Rule::CupParking(c) => c.object(mission, dir, class, data_type),
            Rule::Players(c) => c.observe(mission, dir, class, data_type),
            Rule::Shops(c) => c.observe(mission, dir, class, data_type),
            Rule::Spawners(c) => c.object(mission, dir, class, data_type),
            Rule::Spectator(c) => c.observe(mission, dir, class, data_type),
            Rule::Triggers(c) => c.object(mission, dir, class, data_type),
            Rule::Zeus(c) => c.object(mission, dir, class, data_type),
        }
    }

    /// Hands one link to the rule.
    pub fn link(&mut self, mission: (&SourceFile, &Document), dir: &str, class: &Node)
        requires
            mission.0.wf(),
        ensures
            final(self)@ == Self::spec_link_step(old(self)@, dir@, *class),
    {
        match self {
            Rule::Triggers(c) => c.link(mission, dir, class),
            _ => {},
        }
    }

    /// The rule's diagnostics, in the order it accumulated them.
    pub fn done(&self, dir: &str) -> (r: Vec<Annotation>)
        ensures
            r.deep_view() == Self::spec_done(self@, dir@),
    {
        match self {
            Rule::CupParking(c) => c.done(dir),
            Rule::Players(c) => c.done(dir),
            Rule::Shops(c) => c.done(dir),
            Rule::Spawners(c) => c.done(dir),
            Rule::Spectator(c) => c.done(dir),
            Rule::Triggers(c) => c.done(dir),
            Rule::Zeus(c) => c.done(dir),
        }
    }
}

/// Bounds for descending through a resolved class: whatever `spec_find_class`
/// returns sits inside the children it searched.
pub proof fn lemma_find_class_size(children: Seq<Node>, name: Seq<char>)
    ensures
        match spec_find_class(children, name) {
            Some(c) => node_size(c) <= nodes_size(children),
            None => true,
        },
    decreases children.len(),
{
    if children.len() > 0 {
        lemma_find_class_size(children.drop_first(), name);
    }
}

/// Whatever a dotted-path lookup resolves sits inside the children it
/// started from.
pub proof fn lemma_get_class_size(children: Seq<Node>, path: Seq<char>)
    ensures
        match spec_get_class(children, path) {
            Some(c) => node_size(c) <= nodes_size(children),
            None => true,
        },
    decreases path.len(),
{
    crate::text::lemma_first_index(path, '.');
    let d = crate::text::spec_first_index(path, '.');
    lemma_find_class_size(children, path.subrange(0, d));
    match spec_find_class(children, path.subrange(0, d)) {
        None => {},
        Some(c) => {
            if d != path.len() {
                lemma_get_class_size(c.children_seq(), path.subrange(d + 1, path.len() as int));
            }
        },
    }
}

/// The phase-1 event sequence of one node: the entity itself, then — for a
/// composite — everything inside its nested container, pre-order.
pub open spec fn spec_node_events(n: Node) -> Seq<(Node, Seq<char>)>
    decreases node_size(n), 0int,
    via spec_node_events_decreases
{
    match spec_get_string(n.children_seq(), "dataType"@) {
        None => Seq::empty(),
        Some((dt, _)) => seq![(n, dt)] + (if dt == "Group"@ || dt == "Layer"@ {
            match spec_get_class(n.children_seq(), "Entities"@) {
                Some(sub) => spec_entity_events(sub.children_seq()),
                None => Seq::empty(),
            }
        } else {
            Seq::empty()
        }),
    }
}

#[via_fn]
proof fn spec_node_events_decreases(n: Node) {
    lemma_get_class_size(n.children_seq(), "Entities"@);
    match spec_get_class(n.children_seq(), "Entities"@) {
        Some(sub) => {
            assert(nodes_size(sub.children_seq()) < node_size(sub));
            assert(node_size(n) >= 1 + nodes_size(n.children_seq()) || n is Entry);
        },
        None => {},
    }
}

/// The phase-1 event sequence of a children list: class children only, each
/// followed by its own descendants, in declaration order. An entry child or
/// a class without the discriminator contributes nothing.
pub open spec fn spec_entity_events(children: Seq<Node>) -> Seq<(Node, Seq<char>)>
    decreases nodes_size(children), children.len(),
    via spec_entity_events_decreases
{
    if children.len() == 0 {
        Seq::empty()
    } else {
        (match children[0] {
            Node::Class { .. } => spec_node_events(children[0]),
            Node::Entry { .. } => Seq::empty(),
        }) + spec_entity_events(children.drop_first())
    }
}

#[via_fn]
proof fn spec_entity_events_decreases(children: Seq<Node>) {
    if children.len() > 0 {
        assert(nodes_size(children) == node_size(children[0]) + nodes_size(children.drop_first()));
        assert(node_size(children[0]) >= 1);
    }
}

/// The phase-2 event sequence of a links container: its class children, in
/// declaration order.
pub open spec fn spec_link_events(children: Seq<Node>) -> Seq<Node>
    decreases children.len(),
{
    if children.len() == 0 {
        Seq::empty()
    } else {
        (match children[0] {
            Node::Class { .. } => seq![children[0]],
            Node::Entry { .. } => Seq::empty(),
        }) + spec_link_events(children.drop_first())
    }
}

/// Order preservation, made explicit: the walk of a children list is the
/// first child's events followed by its siblings' events, and a composite
/// entity stands immediately before all of its descendants — so every
/// entity is visited before its descendants, and all of those before the
/// next sibling.
pub proof fn lemma_order_preservation(children: Seq<Node>, n: Node)
    ensures
        children.len() > 0 ==> spec_entity_events(children) == (match children[0] {
            Node::Class { .. } => spec_node_events(children[0]),
            Node::Entry { .. } => Seq::empty(),
        }) + spec_entity_events(children.drop_first()),
        match spec_get_string(n.children_seq(), "dataType"@) {
            Some((dt, _)) => (dt == "Group"@ || dt == "Layer"@) ==> match spec_get_class(
                n.children_seq(),
                "Entities"@,
            ) {
                Some(sub) => spec_node_events(n) == seq![(n, dt)] + spec_entity_events(
                    sub.children_seq(),
                ),
                None => spec_node_events(n) == seq![(n, dt)],
            },
            None => spec_node_events(n) == Seq::<(Node, Seq<char>)>::empty(),
        },
{
    match spec_get_string(n.children_seq(), "dataType"@) {
        Some((dt, _)) => {
            if dt == "Group"@ || dt == "Layer"@ {
                match spec_get_class(n.children_seq(), "Entities"@) {
                    Some(sub) => {},
                    None => {
                        assert(spec_node_events(n) =~= seq![(n, dt)]);
                    },
                }
            }
        },
        None => {},
    }
}

/// Splitting a children list splits its event sequence.
pub proof fn lemma_entity_events_app(a: Seq<Node>, b: Seq<Node>)
    ensures
        spec_entity_events(a + b) == spec_entity_events(a) + spec_entity_events(b),
    decreases a.len(),
{
    if a.len() == 0 {
        assert(a + b =~= b);
        assert(spec_entity_events(a) + spec_entity_events(b) =~= spec_entity_events(b));
    } else {
        lemma_entity_events_app(a.drop_first(), b);
        assert((a + b).drop_first() =~= a.drop_first() + b);
        assert((a + b)[0] == a[0]);
        assert(spec_entity_events(a + b) =~= spec_entity_events(a) + spec_entity_events(b));
    }
}

/// Splitting a links container splits its event sequence.
pub proof fn lemma_link_events_app(a: Seq<Node>, b: Seq<Node>)
    ensures
        spec_link_events(a + b) == spec_link_events(a) + spec_link_events(b),
    decreases a.len(),
{
    if a.len() == 0 {
        assert(a + b =~= b);
        assert(spec_link_events(a) + spec_link_events(b) =~= spec_link_events(b));
    } else {
        lemma_link_events_app(a.drop_first(), b);
        assert((a + b).drop_first() =~= a.drop_first() + b);
        assert((a + b)[0] == a[0]);
        assert(spec_link_events(a + b) =~= spec_link_events(a) + spec_link_events(b));
    }
}

proof fn lemma_entity_events_singleton(child: Node)
    ensures
        spec_entity_events(seq![child]) == (match child {
            Node::Class { .. } => spec_node_events(child),
            Node::Entry { .. } => Seq::<(Node, Seq<char>)>::empty(),
        }),
{
    reveal_with_fuel(spec_entity_events, 2);
    assert(seq![child].drop_first() =~= Seq::<Node>::empty());
    assert(seq![child][0] == child);
    assert(spec_entity_events(seq![child]) =~= (match child {
        Node::Class { .. } => spec_node_events(child),
        Node::Entry { .. } => Seq::<(Node, Seq<char>)>::empty(),
    }));
}

proof fn lemma_link_events_singleton(child: Node)
    ensures
        spec_link_events(seq![child]) == (match child {
            Node::Class { .. } => seq![child],
            Node::Entry { .. } => Seq::<Node>::empty(),
        }),
{
    reveal_with_fuel(spec_link_events, 2);
    assert(seq![child].drop_first() =~= Seq::<Node>::empty());
    assert(seq![child][0] == child);
    assert(spec_link_events(seq![child]) =~= (match child {
        Node::Class { .. } => seq![child],
        Node::Entry { .. } => Seq::<Node>::empty(),
    }));
}

/// One rule's state after a run of phase-1 events, first to last.
pub open spec fn spec_rule_after_entities(
    rv: RuleView,
    m: SourceFile,
    dir: Seq<char>,
    events: Seq<(Node, Seq<char>)>,
) -> RuleView
    decreases events.len(),
{
    if events.len() == 0 {
        rv
    } else {
        spec_rule_after_entities(
            Rule::spec_object(rv, m, dir, events[0].0, events[0].1),
            m,
            dir,
            events.drop_first(),
        )
    }
}

proof fn lemma_after_entities_singleton(
    rv: RuleView,
    m: SourceFile,
    dir: Seq<char>,
    ev: (Node, Seq<char>),
)
    ensures
        spec_rule_after_entities(rv, m, dir, seq![ev]) == Rule::spec_object(rv, m, dir, ev.0, ev.1),
{
    reveal_with_fuel(spec_rule_after_entities, 2);
    assert(seq![ev].drop_first() =~= Seq::<(Node, Seq<char>)>::empty());
    assert(seq![ev][0] == ev);
}

/// Folding a split event run is folding its parts in order.
pub proof fn lemma_rule_after_entities_app(
    rv: RuleView,
    m: SourceFile,
    dir: Seq<char>,
    e1: Seq<(Node, Seq<char>)>,
    e2: Seq<(Node, Seq<char>)>,
)
    ensures
        spec_rule_after_entities(rv, m, dir, e1 + e2) == spec_rule_after_entities(
            spec_rule_after_entities(rv, m, dir, e1),
            m,
            dir,
            e2,
        ),
    decreases e1.len(),
{
    if e1.len() == 0 {
        assert(e1 + e2 =~= e2);
    } else {
        lemma_rule_after_entities_app(
            Rule::spec_object(rv, m, dir, e1[0].0, e1[0].1),
            m,
            dir,
            e1.drop_first(),
            e2,
        );
        assert((e1 + e2).drop_first() =~= e1.drop_first() + e2);
        assert((e1 + e2)[0] == e1[0]);
    }
}

/// One rule's state after a run of phase-2 events, first to last.
pub open spec fn spec_rule_after_links(rv: RuleView, dir: Seq<char>, links: Seq<Node>) -> RuleView
    decreases links.len(),
{
    if links.len() == 0 {
        rv
    } else {
        spec_rule_after_links(Rule::spec_link_step(rv, dir, links[0]), dir, links.drop_first())
    }
}

proof fn lemma_after_links_singleton(rv: RuleView, dir: Seq<char>, link: Node)
    ensures
        spec_rule_after_links(rv, dir, seq![link]) == Rule::spec_link_step(rv, dir, link),
{
    reveal_with_fuel(spec_rule_after_links, 2);
    assert(seq![link].drop_first() =~= Seq::<Node>::empty());
    assert(seq![link][0] == link);
}

/// Folding a split link run is folding its parts in order.
pub proof fn lemma_rule_after_links_app(rv: RuleView, dir: Seq<char>, e1: Seq<Node>, e2: Seq<Node>)
    ensures
        spec_rule_after_links(rv, dir, e1 + e2) == spec_rule_after_links(
            spec_rule_after_links(rv, dir, e1),
            dir,
            e2,
        ),
    decreases e1.len(),
{
    if e1.len() == 0 {
        assert(e1 + e2 =~= e2);
    } else {
        lemma_rule_after_links_app(
            Rule::spec_link_step(rv, dir, e1[0]),
            dir,
            e1.drop_first(),
            e2,
        );
        assert((e1 + e2).drop_first() =~= e1.drop_first() + e2);
        assert((e1 + e2)[0] == e1[0]);
    }
}

/// The diagnostics of a run of rules at finalize, concatenated in
/// registration order.
pub open spec fn spec_outputs(rvs: Seq<RuleView>, dir: Seq<char>) -> Seq<AnnotationData>
    decreases rvs.len(),
{
    if rvs.len() == 0 {
        Seq::empty()
    } else {
        Rule::spec_done(rvs[0], dir) + spec_outputs(rvs.drop_first(), dir)
    }
}

/// The phase-2 events of a document: the links container's class children,
/// or nothing when the container is absent — links are optional.
pub open spec fn spec_doc_links(doc: Seq<Node>) -> Seq<Node> {
    match spec_get_class(doc, "Mission.Connections.Links"@) {
        Some(links) => spec_link_events(links.children_seq()),
        None => Seq::empty(),
    }
}

/// One rule's state after both phases of a run over `doc`. Meaningful only
/// when the entity container exists.
pub open spec fn spec_rule_outcome(
    rv: RuleView,
    m: SourceFile,
    dir: Seq<char>,
    doc: Seq<Node>,
) -> RuleView {
    let entities = spec_get_class(doc, "Mission.Entities"@).unwrap();
    spec_rule_after_links(
        spec_rule_after_entities(rv, m, dir, spec_entity_events(entities.children_seq())),
        dir,
        spec_doc_links(doc),
    )
}

/// Everything a full run returns: each rule driven through both phases,
/// then finalized, in registration order.
pub open spec fn spec_run_checks(
    rvs: Seq<RuleView>,
    m: SourceFile,
    dir: Seq<char>,
    doc: Seq<Node>,
) -> Seq<AnnotationData> {
    spec_outputs(rvs.map_values(|rv: RuleView| spec_rule_outcome(rv, m, dir, doc)), dir)
}

/// Phase 1: walks `children` in declaration order, hands every entity that
/// carries a discriminator to every rule, and recurses into composites.
pub(crate) fn process_entities(
    mission: (&SourceFile, &Document),
    dir: &str,
    checks: &mut Vec<Rule>,
    children: &[Node],
)
    requires
        mission.0.wf(),
    ensures
        final(checks)@.len() == old(checks)@.len(),
        forall|k: int| 0 <= k < old(checks)@.len() ==> final(checks).deep_view()[k]
            == spec_rule_after_entities(
            old(checks).deep_view()[k],
            *mission.0,
            dir@,
            spec_entity_events(children@),
        ),
    decreases nodes_size(children@),
{
    let ghost cs0 = checks.deep_view();
    let n = children.len();
    proof {
        assert(children@.subrange(0, 0) =~= Seq::<Node>::empty());
        assert(forall|k: int| 0 <= k < cs0.len() ==> spec_rule_after_entities(
            cs0[k],
            *mission.0,
            dir@,
            Seq::empty(),
        ) == cs0[k]);
    }
    let mut i: usize = 0;
    while i < n
        invariant
            mission.0.wf(),
            n == children@.len(),
            i <= n,
            checks@.len() == cs0.len(),
            forall|k: int| 0 <= k < cs0.len() ==> checks.deep_view()[k] == spec_rule_after_entities(
                cs0[k],
                *mission.0,
                dir@,
                spec_entity_events(children@.subrange(0, i as int)),
            ),
        decreases n - i,
    {
        let ghost pre_events = spec_entity_events(children@.subrange(0, i as int));
        let ghost child = children@[i as int];
        proof {
            assert(children@.subrange(0, i + 1) =~= children@.subrange(0, i as int) + seq![child]);
            lemma_entity_events_app(children@.subrange(0, i as int), seq![child]);
            lemma_entity_events_singleton(child);
        }
        match &children[i] {
            Node::Class { .. } => {
                let class = &children[i];
                let dt = get_string(class, "dataType");
                match dt {
                    None => {
                        proof {
                            assert(spec_node_events(child) =~= Seq::<(Node, Seq<char>)>::empty());
                            assert(forall|k: int| 0 <= k < cs0.len() ==> checks.deep_view()[k]
                                == spec_rule_after_entities(
                                cs0[k],
                                *mission.0,
                                dir@,
                                spec_entity_events(children@.subrange(0, i + 1)),
                            )) by {
                                lemma_rule_after_entities_app_all(
                                    cs0,
                                    *mission.0,
                                    dir@,
                                    pre_events,
                                    spec_entity_events(seq![child]),
                                );
                            };
                        }
                    },
                    Some((data_type, _)) => {
                        let ghost mid = checks.deep_view();
                        let ghost ev = (child, data_type@);
                        let m = checks.len();
                        let mut j: usize = 0;
                        while j < m
                            invariant
                                mission.0.wf(),
                                m == checks@.len(),
                                checks@.len() == mid.len(),
                                j <= m,
                                forall|k: int| 0 <= k < j ==> checks.deep_view()[k]
                                    == Rule::spec_object(mid[k], *mission.0, dir@, ev.0, ev.1),
                                forall|k: int| j <= k < mid.len() ==> checks.deep_view()[k]
                                    == mid[k],
                                data_type@ == ev.1,
                                child == ev.0,
                                children@[i as int] == child,
                                i < children@.len(),
                            decreases m - j,
                        {
                            let ghost dvprev = checks.deep_view();
                            let ghost vprev = checks@;
                            let rule = &mut checks[j];
                            rule.object(mission, dir, &children[i], data_type);
                            proof {
                                assert(forall|k: int| 0 <= k < vprev.len() ==> #[trigger] dvprev[k]
                                    == vprev[k]@);
                                assert(checks@ == vprev.update(j as int, checks@[j as int]));
                                assert(checks@[j as int]@ == Rule::spec_object(
                                    vprev[j as int]@,
                                    *mission.0,
                                    dir@,
                                    ev.0,
                                    ev.1,
                                ));
                                assert(forall|k: int| 0 <= k < mid.len() && k != j
                                    ==> checks@[k] == vprev[k]);
                                assert(forall|k: int| 0 <= k < mid.len()
                                    ==> #[trigger] checks.deep_view()[k] == checks@[k]@);
                                assert(forall|k: int| 0 <= k < j ==> #[trigger] dvprev[k]
                                    == Rule::spec_object(mid[k], *mission.0, dir@, ev.0, ev.1));
                                assert(dvprev[j as int] == mid[j as int]);
                                assert forall|k: int| 0 <= k <= j implies #[trigger] checks.deep_view()[k]
                                    == Rule::spec_object(mid[k], *mission.0, dir@, ev.0, ev.1) by {
                                    assert(checks.deep_view()[k] == checks@[k]@);
                                    if k < j {
                                        assert(checks@[k] == vprev[k]);
                                        assert(dvprev[k] == vprev[k]@);
                                        assert(dvprev[k] == Rule::spec_object(mid[k], *mission.0, dir@, ev.0, ev.1));
                                    }
                                };
                                assert forall|k: int| j < k < mid.len()
                                    implies #[trigger] checks.deep_view()[k] == mid[k] by {
                                    assert(checks.deep_view()[k] == checks@[k]@);
                                    assert(checks@[k] == vprev[k]);
                                    assert(dvprev[k] == vprev[k]@);
                                    assert(dvprev[k] == mid[k]);
                                };
                            }
                            j = j + 1;
                        }
                        // recurse into composite containers
                        let is_composite = crate::text::str_eq(data_type, "Group") || crate::text::str_eq(
                            data_type,
                            "Layer",
                        );
                        let ghost sub_events = if ev.1 == "Group"@ || ev.1 == "Layer"@ {
                            match spec_get_class(child.children_seq(), "Entities"@) {
                                Some(sub) => spec_entity_events(sub.children_seq()),
                                None => Seq::<(Node, Seq<char>)>::empty(),
                            }
                        } else {
                            Seq::<(Node, Seq<char>)>::empty()
                        };
                        proof {
                            assert(spec_node_events(child) == seq![ev] + sub_events);
                        }
                        if is_composite {
                            match get_class(&children[i], "Entities") {
                                Some(entities) => {
                                    proof {
                                        lemma_get_class_size(child.children_seq(), "Entities"@);
                                        lemma_nodes_size_ge_member(children@, i as int);
                                        assert(nodes_size(entities.children_seq()) < node_size(
                                            *entities,
                                        ));
                                        assert(node_size(child) == 1 + nodes_size(
                                            child.children_seq(),
                                        ));
                                    }
                                    let ghost before_rec = checks.deep_view();
                                    process_entities(
                                        mission,
                                        dir,
                                        checks,
                                        GetChildren::get_children(entities),
                                    );
                                    proof {
                                        assert(forall|k: int| 0 <= k < cs0.len()
                                            ==> checks.deep_view()[k] == spec_rule_after_entities(
                                            before_rec[k],
                                            *mission.0,
                                            dir@,
                                            sub_events,
                                        ));
                                    }
                                },
                                None => {
                                    proof {
                                        assert(sub_events =~= Seq::<(Node, Seq<char>)>::empty());
                                    }
                                },
                            }
                        }
                        proof {
                            // one event, then the composite's own events
                            assert(forall|k: int| 0 <= k < cs0.len() ==> checks.deep_view()[k]
                                == spec_rule_after_entities(
                                mid[k],
                                *mission.0,
                                dir@,
                                spec_node_events(child),
                            )) by {
                                assert forall|k: int| 0 <= k < cs0.len()
                                    implies spec_rule_after_entities(
                                    #[trigger] mid[k],
                                    *mission.0,
                                    dir@,
                                    seq![ev],
                                ) == Rule::spec_object(mid[k], *mission.0, dir@, ev.0, ev.1) by {
                                    lemma_after_entities_singleton(mid[k], *mission.0, dir@, ev);
                                };
                                lemma_rule_after_entities_app_all(
                                    mid,
                                    *mission.0,
                                    dir@,
                                    seq![ev],
                                    sub_events,
                                );
                            };
                            lemma_rule_after_entities_app_all(
                                cs0,
                                *mission.0,
                                dir@,
                                pre_events,
                                spec_node_events(child),
                            );
                        }
                    },
                }
            },
            Node::Entry { .. } => {
                proof {
                    assert(forall|k: int| 0 <= k < cs0.len() ==> checks.deep_view()[k]
                        == spec_rule_after_entities(
                        cs0[k],
                        *mission.0,
                        dir@,
                        spec_entity_events(children@.subrange(0, i + 1)),
                    )) by {
                        lemma_rule_after_entities_app_all(
                            cs0,
                            *mission.0,
                            dir@,
                            pre_events,
                            Seq::empty(),
                        );
                        assert(pre_events + Seq::<(Node, Seq<char>)>::empty() =~= pre_events);
                    };
                }
            },
        }
        i = i + 1;
    }
    proof {
        assert(children@.subrange(0, n as int) =~= children@);
    }
}

/// `lemma_rule_after_entities_app`, over a whole rule list at once.
proof fn lemma_rule_after_entities_app_all(
    rvs: Seq<RuleView>,
    m: SourceFile,
    dir: Seq<char>,
    e1: Seq<(Node, Seq<char>)>,
    e2: Seq<(Node, Seq<char>)>,
)
    ensures
        forall|k: int| 0 <= k < rvs.len() ==> spec_rule_after_entities(#[trigger] rvs[k], m, dir, e1 + e2)
            == spec_rule_after_entities(spec_rule_after_entities(rvs[k], m, dir, e1), m, dir, e2),
{
    assert forall|k: int| 0 <= k < rvs.len() implies spec_rule_after_entities(
        #[trigger] rvs[k],
        m,
        dir,
        e1 + e2,
    ) == spec_rule_after_entities(spec_rule_after_entities(rvs[k], m, dir, e1), m, dir, e2) by {
        lemma_rule_after_entities_app(rvs[k], m, dir, e1, e2);
    }
}

/// Phase 2: hands every class child of the links container to every rule,
/// flat and in declaration order.
fn process_links(
    mission: (&SourceFile, &Document),
    dir: &str,
    checks: &mut Vec<Rule>,
    children: &[Node],
)
    requires
        mission.0.wf(),
    ensures
        final(checks)@.len() == old(checks)@.len(),
        forall|k: int| 0 <= k < old(checks)@.len() ==> final(checks).deep_view()[k]
            == spec_rule_after_links(
            old(checks).deep_view()[k],
            dir@,
            spec_link_events(children@),
        ),
{
    let ghost cs0 = checks.deep_view();
    let n = children.len();
    proof {
        assert(children@.subrange(0, 0) =~= Seq::<Node>::empty());
    }
    let mut i: usize = 0;
    while i < n
        invariant
            mission.0.wf(),
            n == children@.len(),
            i <= n,
            checks@.len() == cs0.len(),
            forall|k: int| 0 <= k < cs0.len() ==> checks.deep_view()[k] == spec_rule_after_links(
                cs0[k],
                dir@,
                spec_link_events(children@.subrange(0, i as int)),
            ),
        decreases n - i,
    {
        let ghost pre_events = spec_link_events(children@.subrange(0, i as int));
        let ghost child = children@[i as int];
        proof {
            assert(children@.subrange(0, i + 1) =~= children@.subrange(0, i as int) + seq![child]);
            lemma_link_events_app(children@.subrange(0, i as int), seq![child]);
            assert(seq![child].drop_first() =~= Seq::<Node>::empty());
        }
        match &children[i] {
            Node::Class { .. } => {
                let ghost mid = checks.deep_view();
                let m = checks.len();
                let mut j: usize = 0;
                while j < m
                    invariant
                        mission.0.wf(),
                        m == checks@.len(),
                        checks@.len() == mid.len(),
                        j <= m,
                        forall|k: int| 0 <= k < j ==> checks.deep_view()[k] == Rule::spec_link_step(
                            mid[k],
                            dir@,
                            child,
                        ),
                        forall|k: int| j <= k < mid.len() ==> checks.deep_view()[k] == mid[k],
                        children@[i as int] == child,
                        i < children@.len(),
                    decreases m - j,
                {
                    let ghost dvprev = checks.deep_view();
                    let ghost vprev = checks@;
                    let rule = &mut checks[j];
                    rule.link(mission, dir, &children[i]);
                    proof {
                        assert(forall|k: int| 0 <= k < vprev.len() ==> #[trigger] dvprev[k]
                            == vprev[k]@);
                        assert(checks@ == vprev.update(j as int, checks@[j as int]));
                        assert(checks@[j as int]@ == Rule::spec_link_step(
                            vprev[j as int]@,
                            dir@,
                            child,
                        ));
                        assert(forall|k: int| 0 <= k < mid.len() && k != j ==> checks@[k] == vprev[k]);
                        assert(forall|k: int| 0 <= k < mid.len()
                            ==> #[trigger] checks.deep_view()[k] == checks@[k]@);
                        assert(forall|k: int| 0 <= k < j ==> #[trigger] dvprev[k]
                            == Rule::spec_link_step(mid[k], dir@, child));
                        assert(dvprev[j as int] == mid[j as int]);
                        assert forall|k: int| 0 <= k <= j implies #[trigger] checks.deep_view()[k]
                            == Rule::spec_link_step(mid[k], dir@, child) by {
                            assert(checks.deep_view()[k] == checks@[k]@);
                            if k < j {
                                assert(checks@[k] == vprev[k]);
                                assert(dvprev[k] == vprev[k]@);
                                assert(dvprev[k] == Rule::spec_link_step(mid[k], dir@, child));
                            }
                        };
                        assert forall|k: int| j < k < mid.len()
                            implies #[trigger] checks.deep_view()[k] == mid[k] by {
                            assert(checks.deep_view()[k] == checks@[k]@);
                            assert(checks@[k] == vprev[k]);
                            assert(dvprev[k] == vprev[k]@);
                            assert(dvprev[k] == mid[k]);
                        };
                    }
                    j = j + 1;
                }
                proof {
                    lemma_link_events_singleton(child);
                    lemma_rule_after_links_app_all(cs0, dir@, pre_events, seq![child]);
                    assert forall|k: int| 0 <= k < mid.len() implies spec_rule_after_links(
                        #[trigger] mid[k],
                        dir@,
                        seq![child],
                    ) == Rule::spec_link_step(mid[k], dir@, child) by {
                        lemma_after_links_singleton(mid[k], dir@, child);
                    };
                }
            },
            Node::Entry { .. } => {
                proof {
                    lemma_link_events_singleton(child);
                    lemma_rule_after_links_app_all(cs0, dir@, pre_events, Seq::empty());
                    assert(pre_events + Seq::<Node>::empty() =~= pre_events);
                }
            },
        }
        i = i + 1;
    }
    proof {
        assert(children@.subrange(0, n as int) =~= children@);
    }
}

/// `lemma_rule_after_links_app`, over a whole rule list at once.
proof fn lemma_rule_after_links_app_all(
    rvs: Seq<RuleView>,
    dir: Seq<char>,
    e1: Seq<Node>,
    e2: Seq<Node>,
)
    ensures
        forall|k: int| 0 <= k < rvs.len() ==> spec_rule_after_links(#[trigger] rvs[k], dir, e1 + e2)
            == spec_rule_after_links(spec_rule_after_links(rvs[k], dir, e1), dir, e2),
{
    assert forall|k: int| 0 <= k < rvs.len() implies spec_rule_after_links(
        #[trigger] rvs[k],
        dir,
        e1 + e2,
    ) == spec_rule_after_links(spec_rule_after_links(rvs[k], dir, e1), dir, e2) by {
        lemma_rule_after_links_app(rvs[k], dir, e1, e2);
    }
}

/// Runs every rule over the document: the entity phase from the mandatory
/// `Mission.Entities` container — its absence is the hard failure, distinct
/// from a clean run — then the link phase from the optional
/// `Mission.Connections.Links` container, then finalize, in registration
/// order.
pub fn run_checks(
    dir: &str,
    rules: Vec<Rule>,
    mission: (&SourceFile, &Document),
) -> (r: Result<Vec<Annotation>, HardFailure>)
    requires
        mission.0.wf(),
    ensures
        match r {
            Ok(msgs) => spec_get_class(mission.1.nodes@, "Mission.Entities"@) is Some
                && msgs.deep_view() == spec_run_checks(
                rules.deep_view(),
                *mission.0,
                dir@,
                mission.1.nodes@,
            ),
            Err(_) => spec_get_class(mission.1.nodes@, "Mission.Entities"@) is None,
        },
{
    let ghost rvs0 = rules.deep_view();
    let mut checks = rules;
    let Some(entities) = get_class(mission.1, "Mission.Entities") else {
        return Err(HardFailure::MissingEntities);
    };
    process_entities(mission, dir, &mut checks, GetChildren::get_children(entities));
    match get_class(mission.1, "Mission.Connections.Links") {
        Some(links) => {
            process_links(mission, dir, &mut checks, GetChildren::get_children(links));
        },
        None => {
            proof {
                assert(forall|k: int| 0 <= k < checks.deep_view().len()
                    ==> spec_rule_after_links(
                    #[trigger] checks.deep_view()[k],
                    dir@,
                    Seq::empty(),
                ) == checks.deep_view()[k]);
            }
        },
    }
    proof {
        let outcome = rvs0.map_values(
            |rv: RuleView| spec_rule_outcome(rv, *mission.0, dir@, mission.1.nodes@),
        );
        assert(checks.deep_view() =~= outcome);
    }
    Ok(finalize_rules(&checks, dir))
}

/// Finalize: collects every rule's diagnostics, in registration order.
pub(crate) fn finalize_rules(checks: &Vec<Rule>, dir: &str) -> (out: Vec<Annotation>)
    ensures
        out.deep_view() == spec_outputs(checks.deep_view(), dir@),
{
    let ghost outcome = checks.deep_view();
    let mut out: Vec<Annotation> = Vec::new();
    let n = checks.len();
    proof {
        assert(outcome.subrange(0, n as int) =~= outcome);
        assert(out.deep_view() =~= Seq::<AnnotationData>::empty());
    }
    let mut i: usize = 0;
    while i < n
        invariant
            n == checks@.len(),
            checks.deep_view() == outcome,
            i <= n,
            out.deep_view() + spec_outputs(outcome.subrange(i as int, n as int), dir@)
                == spec_outputs(outcome, dir@),
        decreases n - i,
    {
        let ghost pre = outcome.subrange(i as int, n as int);
        proof {
            assert(pre[0] == outcome[i as int]);
            assert(pre.drop_first() =~= outcome.subrange(i + 1, n as int));
        }
        let mut msgs = checks[i].done(dir);
        let ghost out_pre = out.deep_view();
        let ghost msgs_view = msgs.deep_view();
        out.append(&mut msgs);
        proof {
            assert(out.deep_view() =~= out_pre + msgs_view);
            assert((out_pre + msgs_view) + spec_outputs(outcome.subrange(i + 1, n as int), dir@)
                =~= out_pre + (msgs_view + spec_outputs(outcome.subrange(i + 1, n as int), dir@)));
        }
        i = i + 1;
    }
    proof {
        assert(outcome.subrange(n as int, n as int) =~= Seq::<RuleView>::empty());
        assert(out.deep_view() + Seq::<AnnotationData>::empty() =~= out.deep_view());
    }
    out
}

} // verus!

//! The paired cross-reference rule: waypoint-activation links must connect
//! a properly configured trigger to a waypoint.
//!
//! During the entity phase the rule records every trigger and waypoint —
//! what each one's checks later need, keyed by its integer `id` where one
//! is present. During the link phase it resolves each link's two integer
//! references against those registries. A reference that matches nothing
//! is silently ignored (this rule defines no "unresolved" diagnostic);
//! when both resolve but no trigger/waypoint role assignment exists, that
//! conflict is reported explicitly.

use vstd::prelude::*;

use crate::annotation::{spec_annotation, Annotation, AnnotationData, Level, SourceFile};
use crate::text::{join_path, spec_join, str_eq};
use crate::tree::{Document, Node, Span};
use crate::{
    get_class, get_float, get_number, get_string, spec_get_class, spec_get_float, spec_get_number,
    spec_get_string,
};

verus! {

/// What the link phase needs of one recorded trigger.
pub struct TriggerRecView {
    pub id: Option<i32>,
    pub is_server_only: Option<i32>,
    pub interval_milli: Option<i64>,
    pub has_attributes: bool,
    pub attributes_type: Option<Seq<char>>,
}

/// One recorded trigger.
#[derive(Debug)]
pub struct TriggerRec {
    pub id: Option<i32>,
    pub is_server_only: Option<i32>,
    pub interval_milli: Option<i64>,
    pub has_attributes: bool,
    pub attributes_type: Option<String>,
}

impl View for TriggerRec {
    type V = TriggerRecView;

    open spec fn view(&self) -> TriggerRecView {
        TriggerRecView {
            id: self.id,
            is_server_only: self.is_server_only,
            interval_milli: self.interval_milli,
            has_attributes: self.has_attributes,
            attributes_type: match self.attributes_type {
                Some(s) => Some(s@),
                None => None,
            },
        }
    }
}

impl DeepView for TriggerRec {
    type V = TriggerRecView;

    open spec fn deep_view(&self) -> TriggerRecView {
        self.view()
    }
}

/// What the link phase needs of one recorded waypoint.
pub struct WaypointRecView {
    pub id: Option<i32>,
    pub waypoint_type: Option<Seq<char>>,
}

/// One recorded waypoint.
#[derive(Debug)]
pub struct WaypointRec {
    pub id: Option<i32>,
    pub waypoint_type: Option<String>,
}

impl View for WaypointRec {
    type V = WaypointRecView;

    open spec fn view(&self) -> WaypointRecView {
        WaypointRecView {
            id: self.id,
            waypoint_type: match self.waypoint_type {
                Some(s) => Some(s@),
                None => None,
            },
        }
    }
}

impl DeepView for WaypointRec {
    type V = WaypointRecView;

    open spec fn deep_view(&self) -> WaypointRecView {
        self.view()
    }
}

/// The record taken of a trigger entity.
pub open spec fn spec_trigger_rec(class: Node) -> TriggerRecView {
    TriggerRecView {
        id: match spec_get_number(class.children_seq(), "id"@) {
            Some((v, _)) => Some(v),
            None => None,
        },
        is_server_only: match spec_get_number(class.children_seq(), "isServerOnly"@) {
            Some((v, _)) => Some(v),
            None => None,
        },
        interval_milli: match spec_get_float(class.children_seq(), "interval"@) {
            Some((v, _)) => Some(v),
            None => None,
        },
        has_attributes: spec_get_class(class.children_seq(), "Attributes"@) is Some,
        attributes_type: match spec_get_class(class.children_seq(), "Attributes"@) {
            Some(attrs) => match spec_get_string(attrs.children_seq(), "type"@) {
                Some((s, _)) => Some(s),
                None => None,
            },
            None => None,
        },
    }
}

/// The record taken of a waypoint entity.
pub open spec fn spec_waypoint_rec(class: Node) -> WaypointRecView {
    WaypointRecView {
        id: match spec_get_number(class.children_seq(), "id"@) {
            Some((v, _)) => Some(v),
            None => None,
        },
        waypoint_type: match spec_get_string(class.children_seq(), "type"@) {
            Some((s, _)) => Some(s),
            None => None,
        },
    }
}

/// The first recorded trigger carrying exactly this id.
pub open spec fn spec_find_trigger(ts: Seq<TriggerRecView>, id: i32) -> Option<TriggerRecView>
    decreases ts.len(),
{
    if ts.len() == 0 {
        None
    } else if ts[0].id == Some(id) {
        Some(ts[0])
    } else {
        spec_find_trigger(ts.drop_first(), id)
    }
}

/// The first recorded waypoint carrying exactly this id.
pub open spec fn spec_find_waypoint(ws: Seq<WaypointRecView>, id: i32) -> Option<WaypointRecView>
    decreases ws.len(),
{
    if ws.len() == 0 {
        None
    } else if ws[0].id == Some(id) {
        Some(ws[0])
    } else {
        spec_find_waypoint(ws.drop_first(), id)
    }
}

/// The mathematical state of the rule.
pub struct TriggerChecksView {
    pub messages: Seq<AnnotationData>,
    pub triggers: Seq<TriggerRecView>,
    pub waypoints: Seq<WaypointRecView>,
}

/// A reference resolves when either registry holds its id; triggers are
/// searched first.
pub open spec fn spec_resolves(v: TriggerChecksView, id: i32) -> bool {
    spec_find_trigger(v.triggers, id) is Some || spec_find_waypoint(v.waypoints, id) is Some
}

/// The trigger role over a link's two resolved references: the second
/// reference wins when both resolve to triggers.
pub open spec fn spec_role_trigger(v: TriggerChecksView, id0: i32, id1: i32) -> Option<
    TriggerRecView,
> {
    if spec_find_trigger(v.triggers, id1) is Some {
        spec_find_trigger(v.triggers, id1)
    } else {
        spec_find_trigger(v.triggers, id0)
    }
}

/// The waypoint role over a link's two resolved references: a reference
/// acts as a waypoint only when the trigger registry does not hold it; the
/// second reference wins when both qualify.
pub open spec fn spec_role_waypoint(v: TriggerChecksView, id0: i32, id1: i32) -> Option<
    WaypointRecView,
> {
    if spec_find_trigger(v.triggers, id1) is None && spec_find_waypoint(v.waypoints, id1)
        is Some {
        spec_find_waypoint(v.waypoints, id1)
    } else if spec_find_trigger(v.triggers, id0) is None && spec_find_waypoint(v.waypoints, id0)
        is Some {
        spec_find_waypoint(v.waypoints, id0)
    } else {
        None
    }
}

/// One message of this rule, against the mission file at no concrete span.
pub open spec fn spec_msg(dir: Seq<char>, message: Seq<char>) -> AnnotationData {
    spec_annotation(
        None,
        spec_join(dir, "mission.sqm"@),
        Seq::empty(),
        Span { start: 0, end: 0 },
        message,
        Level::Error,
    )
}

/// The messages the configuration checks on the trigger role add: the
/// trigger must be server-only and its interval must not be too low; a
/// missing setting fails exactly as a bad one does.
pub open spec fn spec_trigger_msgs(t: TriggerRecView, dir: Seq<char>) -> Seq<AnnotationData> {
    (match t.is_server_only {
        Some(x) => if x == 0 {
            seq![spec_msg(dir, "Trigger not set to server only"@)]
        } else {
            Seq::empty()
        },
        None => seq![spec_msg(dir, "Trigger not set to server only"@)],
    }) + (match t.interval_milli {
        Some(m) => if m < 600 {
            seq![spec_msg(dir, "Trigger interval is set too low (below 0.5 seconds)"@)]
        } else {
            Seq::empty()
        },
        None => seq![spec_msg(dir, "Trigger interval is set too low (below 0.5 seconds)"@)],
    })
}

/// The messages added once both references of a waypoint-activation link
/// resolve.
pub open spec fn spec_paired_msgs(v: TriggerChecksView, dir: Seq<char>, id0: i32, id1: i32) -> Seq<
    AnnotationData,
> {
    let trig = spec_role_trigger(v, id0, id1);
    let way = spec_role_waypoint(v, id0, id1);
    let tmsgs = match trig {
        Some(t) => spec_trigger_msgs(t, dir),
        None => Seq::empty(),
    };
    if trig is None || way is None {
        tmsgs + seq![
            spec_msg(dir, "WaypointActivation link does not connect to a trigger and waypoint"@),
        ]
    } else {
        let t = trig.unwrap();
        match way.unwrap().waypoint_type {
            None => tmsgs + seq![
                spec_msg(dir, "WaypointActivation link does not connect to a valid waypoint"@),
            ],
            Some(wt) => if !t.has_attributes {
                tmsgs
            } else {
                let tt = match t.attributes_type {
                    Some(s) => s,
                    None => "ACTIVATE"@,
                };
                if tt == "ACTIVATE"@ && wt == "Hold"@ {
                    tmsgs + seq![
                        spec_msg(
                            dir,
                            "HOLD waypoint is linked to a trigger that isn't SKIP WAYPOINT"@,
                        ),
                    ]
                } else {
                    tmsgs
                }
            },
        }
    }
}

/// The messages one link adds: none unless the link is a waypoint
/// activation carrying two references that both resolve.
pub open spec fn spec_link_msgs(v: TriggerChecksView, dir: Seq<char>, link: Node) -> Seq<
    AnnotationData,
> {
    match spec_get_class(link.children_seq(), "CustomData"@) {
        None => Seq::empty(),
        Some(cd) => match spec_get_string(cd.children_seq(), "type"@) {
            None => Seq::empty(),
            Some((lt, _)) => if lt != "WaypointActivation"@ {
                Seq::empty()
            } else {
                match spec_get_number(link.children_seq(), "item0"@) {
                    None => Seq::empty(),
                    Some((id0, _)) => match spec_get_number(link.children_seq(), "item1"@) {
                        None => Seq::empty(),
                        Some((id1, _)) => if spec_resolves(v, id0) && spec_resolves(v, id1) {
                            spec_paired_msgs(v, dir, id0, id1)
                        } else {
                            Seq::empty()
                        },
                    },
                }
            },
        },
    }
}

/// Records triggers and waypoints during the entity phase and checks
/// waypoint-activation links between them during the link phase.
#[derive(Debug)]
pub struct TriggerChecks {
    pub messages: Vec<Annotation>,
    pub triggers: Vec<TriggerRec>,
    pub waypoints: Vec<WaypointRec>,
}

impl View for TriggerChecks {
    type V = TriggerChecksView;

    open spec fn view(&self) -> TriggerChecksView {
        TriggerChecksView {
            messages: self.messages.deep_view(),
            triggers: self.triggers.deep_view(),
            waypoints: self.waypoints.deep_view(),
        }
    }
}

impl TriggerChecks {
    pub fn new() -> (r: Self)
        ensures
            r@ == (TriggerChecksView {
                messages: Seq::empty(),
                triggers: Seq::empty(),
                waypoints: Seq::empty(),
            }),
    {
        let r = TriggerChecks { messages: Vec::new(), triggers: Vec::new(), waypoints: Vec::new() };
        proof {
            assert(r@.messages =~= Seq::<AnnotationData>::empty());
            assert(r@.triggers =~= Seq::<TriggerRecView>::empty());
            assert(r@.waypoints =~= Seq::<WaypointRecView>::empty());
        }
        r
    }

    /// The state after observing one entity: triggers and waypoints are
    /// recorded; a Guard waypoint is flagged at once.
    pub open spec fn spec_observe(
        v: TriggerChecksView,
        dir: Seq<char>,
        class: Node,
        data_type: Seq<char>,
    ) -> TriggerChecksView {
        if data_type == "Trigger"@ {
            TriggerChecksView { triggers: v.triggers + seq![spec_trigger_rec(class)], ..v }
        } else if data_type == "Waypoint"@ {
            let v1 = TriggerChecksView {
                waypoints: v.waypoints + seq![spec_waypoint_rec(class)],
                ..v
            };
            match spec_get_string(class.children_seq(), "type"@) {
                Some((t, _)) => if t == "Guard"@ {
                    TriggerChecksView {
                        messages: v1.messages + seq![
                            spec_msg(dir, "Guard waypoint is not allowed"@),
                        ],
                        ..v1
                    }
                } else {
                    v1
                },
                None => v1,
            }
        } else {
            v
        }
    }

    /// The state after observing one link.
    pub open spec fn spec_link(v: TriggerChecksView, dir: Seq<char>, link: Node) -> TriggerChecksView {
        TriggerChecksView { messages: v.messages + spec_link_msgs(v, dir, link), ..v }
    }

    fn push_msg(&mut self, dir: &str, message: &str)
        ensures
            final(self)@.messages == old(self)@.messages + seq![spec_msg(dir@, message@)],
            final(self)@.triggers == old(self)@.triggers,
            final(self)@.waypoints == old(self)@.waypoints,
    {
        proof {
            reveal_strlit("");
        }
        let a = Annotation::new(
            None,
            join_path(dir, "mission.sqm"),
            "",
            Span { start: 0, end: 0 },
            String::from_str(message),
            Level::Error,
        );
        let ghost pre = self.messages.deep_view();
        self.messages.push(a);
        proof {
            assert(self.messages.deep_view() =~= pre + seq![spec_msg(dir@, message@)]);
        }
    }

    pub fn object(
        &mut self,
        _mission: (&SourceFile, &Document),
        dir: &str,
        class: &Node,
        data_type: &str,
    )
        ensures
            final(self)@ == Self::spec_observe(old(self)@, dir@, *class, data_type@),
    {
        if str_eq(data_type, "Trigger") {
            let rec = TriggerRec {
                id: match get_number(class, "id") {
                    Some((v, _)) => Some(v),
                    None => None,
                },
                is_server_only: match get_number(class, "isServerOnly") {
                    Some((v, _)) => Some(v),
                    None => None,
                },
                interval_milli: match get_float(class, "interval") {
                    Some((v, _)) => Some(v),
                    None => None,
                },
                has_attributes: get_class(class, "Attributes").is_some(),
                attributes_type: match get_class(class, "Attributes") {
                    Some(attrs) => match get_string(attrs, "type") {
                        Some((s, _)) => Some(String::from_str(s)),
                        None => None,
                    },
                    None => None,
                },
            };
            proof {
                assert(rec@ == spec_trigger_rec(*class));
            }
            let ghost pre = self.triggers.deep_view();
            self.triggers.push(rec);
            proof {
                assert(self.triggers.deep_view() =~= pre + seq![spec_trigger_rec(*class)]);
            }
        } else if str_eq(data_type, "Waypoint") {
            let wtype = get_string(class, "type");
            let rec = WaypointRec {
                id: match get_number(class, "id") {
                    Some((v, _)) => Some(v),
                    None => None,
                },
                waypoint_type: match wtype {
                    Some((s, _)) => Some(String::from_str(s)),
                    None => None,
                },
            };
            proof {
                assert(rec@ == spec_waypoint_rec(*class));
            }
            let ghost pre = self.waypoints.deep_view();
            self.waypoints.push(rec);
            proof {
                assert(self.waypoints.deep_view() =~= pre + seq![spec_waypoint_rec(*class)]);
            }
            match wtype {
                Some((t, _)) => {
                    if str_eq(t, "Guard") {
                        self.push_msg(dir, "Guard waypoint is not allowed");
                    }
                },
                None => {},
            }
        }
    }

    fn find_trigger_idx(&self, id: i32) -> (r: Option<usize>)
        ensures
            match r {
                Some(j) => 0 <= j < self.triggers@.len() && spec_find_trigger(self@.triggers, id)
                    == Some(self@.triggers[j as int]),
                None => spec_find_trigger(self@.triggers, id) is None,
            },
    {
        let n = self.triggers.len();
        proof {
            assert(self.triggers.deep_view().subrange(0, n as int) =~= self.triggers.deep_view());
        }
        let mut i: usize = 0;
        while i < n
            invariant
                n == self.triggers@.len(),
                n == self.triggers.deep_view().len(),
                i <= n,
                spec_find_trigger(self@.triggers, id) == spec_find_trigger(
                    self.triggers.deep_view().subrange(i as int, n as int),
                    id,
                ),
            decreases n - i,
        {
            let ghost pre = self.triggers.deep_view().subrange(i as int, n as int);
            proof {
                assert(pre[0] == self.triggers.deep_view()[i as int]);
                assert(pre.drop_first() =~= self.triggers.deep_view().subrange(i + 1, n as int));
            }
            let matches_id = match &self.triggers[i].id {
                Some(v) => *v == id,
                None => false,
            };
            if matches_id {
                return Some(i);
            }
            i = i + 1;
        }
        None
    }

    fn find_waypoint_idx(&self, id: i32) -> (r: Option<usize>)
        ensures
            match r {
                Some(j) => 0 <= j < self.waypoints@.len() && spec_find_waypoint(self@.waypoints, id)
                    == Some(self@.waypoints[j as int]),
                None => spec_find_waypoint(self@.waypoints, id) is None,
            },
    {
        let n = self.waypoints.len();
        proof {
            assert(self.waypoints.deep_view().subrange(0, n as int) =~= self.waypoints.deep_view());
        }
        let mut i: usize = 0;
        while i < n
            invariant
                n == self.waypoints@.len(),
                n == self.waypoints.deep_view().len(),
                i <= n,
                spec_find_waypoint(self@.waypoints, id) == spec_find_waypoint(
                    self.waypoints.deep_view().subrange(i as int, n as int),
                    id,
                ),
            decreases n - i,
        {
            let ghost pre = self.waypoints.deep_view().subrange(i as int, n as int);
            proof {
                assert(pre[0] == self.waypoints.deep_view()[i as int]);
                assert(pre.drop_first() =~= self.waypoints.deep_view().subrange(i + 1, n as int));
            }
            let matches_id = match &self.waypoints[i].id {
                Some(v) => *v == id,
                None => false,
            };
            if matches_id {
                return Some(i);
            }
            i = i + 1;
        }
        None
    }

    pub fn link(&mut self, _mission: (&SourceFile, &Document), dir: &str, class: &Node)
        ensures
            final(self)@ == Self::spec_link(old(self)@, dir@, *class),
    {
        proof {
            assert(old(self)@.messages + Seq::<AnnotationData>::empty() =~= old(self)@.messages);
        }
        let Some(custom_data) = get_class(class, "CustomData") else {
            return;
        };
        let Some((link_type, _)) = get_string(custom_data, "type") else {
            return;
        };
        if !str_eq(link_type, "WaypointActivation") {
            return;
        }
        let Some((item_0, _)) = get_number(class, "item0") else {
            return;
        };
        let Some((item_1, _)) = get_number(class, "item1") else {
            return;
        };
        // resolve both references; triggers take precedence
        let t0 = self.find_trigger_idx(item_0);
        let w0 = match t0 {
            Some(_) => None,
            None => self.find_waypoint_idx(item_0),
        };
        if t0.is_none() && w0.is_none() {
            return;
        }
        let t1 = self.find_trigger_idx(item_1);
        let w1 = match t1 {
            Some(_) => None,
            None => self.find_waypoint_idx(item_1),
        };
        if t1.is_none() && w1.is_none() {
            return;
        }
        // role assignment: the second reference wins within a role
        let trig_idx = match t1 {
            Some(j) => Some(j),
            None => t0,
        };
        let way_idx = match w1 {
            Some(j) => Some(j),
            None => w0,
        };
        proof {
            assert(match trig_idx {
                Some(j) => 0 <= j < self@.triggers.len() && spec_role_trigger(self@, item_0, item_1)
                    == Some(self@.triggers[j as int]),
                None => spec_role_trigger(self@, item_0, item_1) is None,
            });
            assert(match way_idx {
                Some(j) => 0 <= j < self@.waypoints.len() && spec_role_waypoint(
                    self@,
                    item_0,
                    item_1,
                ) == Some(self@.waypoints[j as int]),
                None => spec_role_waypoint(self@, item_0, item_1) is None,
            });
        }
        if let Some(j) = trig_idx {
            let is_server_only = self.triggers[j].is_server_only;
            let server_ok = match is_server_only {
                Some(x) => x != 0,
                None => false,
            };
            if !server_ok {
                self.push_msg(dir, "Trigger not set to server only");
            }
            let interval = self.triggers[j].interval_milli;
            let interval_ok = match interval {
                Some(m) => m >= 600,
                None => false,
            };
            if !interval_ok {
                self.push_msg(dir, "Trigger interval is set too low (below 0.5 seconds)");
            }
        }
        if trig_idx.is_none() || way_idx.is_none() {
            self.push_msg(dir, "WaypointActivation link does not connect to a trigger and waypoint");
            proof {
                assert(final(self)@.messages =~= old(self)@.messages + spec_link_msgs(
                    old(self)@,
                    dir@,
                    *class,
                ));
            }
            return;
        }
        let tj = trig_idx.unwrap();
        let wj = way_idx.unwrap();
        let has_waypoint_type = self.waypoints[wj].waypoint_type.is_some();
        if !has_waypoint_type {
            self.push_msg(dir, "WaypointActivation link does not connect to a valid waypoint");
            proof {
                assert(final(self)@.messages =~= old(self)@.messages + spec_link_msgs(
                    old(self)@,
                    dir@,
                    *class,
                ));
            }
            return;
        }
        if !self.triggers[tj].has_attributes {
            proof {
                assert(final(self)@.messages =~= old(self)@.messages + spec_link_msgs(
                    old(self)@,
                    dir@,
                    *class,
                ));
            }
            return;
        }
        let trigger_activate = match &self.triggers[tj].attributes_type {
            Some(s) => str_eq(s.as_str(), "ACTIVATE"),
            None => true,
        };
        let waypoint_hold = match &self.waypoints[wj].waypoint_type {
            Some(s) => str_eq(s.as_str(), "Hold"),
            None => false,
        };
        if trigger_activate && waypoint_hold {
            self.push_msg(dir, "HOLD waypoint is linked to a trigger that isn't SKIP WAYPOINT");
        }
        proof {
            assert(final(self)@.messages =~= old(self)@.messages + spec_link_msgs(
                old(self)@,
                dir@,
                *class,
            ));
        }
    }

    /// The diagnostics at finalize: everything accumulated along the way.
    pub open spec fn spec_done(v: TriggerChecksView) -> Seq<AnnotationData> {
        v.messages
    }

    pub fn done(&self, _dir: &str) -> (r: Vec<Annotation>)
        ensures
            r.deep_view() == Self::spec_done(self@),
    {
        crate::annotation::clone_annotations(&self.messages)
    }
}

impl Default for TriggerChecks {
    fn default() -> (r: Self)
        ensures
            r@ == (TriggerChecksView {
                messages: Seq::empty(),
                triggers: Seq::empty(),
                waypoints: Seq::empty(),
            }),
    {
        TriggerChecks::new()
    }
}

/// Resolution completeness: a waypoint-activation link either of whose two
/// references matches no recorded id adds no diagnostic at all — in
/// particular, no paired-check diagnostic is ever produced from a partial
/// resolution.
pub proof fn lemma_resolution_completeness(v: TriggerChecksView, dir: Seq<char>, link: Node)
    requires
        match spec_get_number(link.children_seq(), "item0"@) {
            Some((id0, _)) => !spec_resolves(v, id0),
            None => true,
        } || match spec_get_number(link.children_seq(), "item1"@) {
            Some((id1, _)) => !spec_resolves(v, id1),
            None => true,
        },
    ensures
        TriggerChecks::spec_link(v, dir, link) == v,
{
    assert(spec_link_msgs(v, dir, link) == Seq::<AnnotationData>::empty());
    assert(v.messages + Seq::<AnnotationData>::empty() =~= v.messages);
}

} // verus!

//! A counting rule over four spawner categories: missions that give out
//! vehicles need land and thing spawners; mission types without vehicles
//! must not place any spawner.

use vstd::prelude::*;

use crate::annotation::{spec_annotation, Annotation, AnnotationData, Level, SourceFile};
use crate::text::{join_path, spec_join, str_eq};
use crate::tree::{Document, Node, Span};
use crate::{get_string, spec_get_string};

verus! {

/// The mathematical state of the spawner rule.
pub struct SpawnersCheckView {
    pub count_land: int,
    pub count_air: int,
    pub count_sea: int,
    pub count_thing: int,
    pub data_type: Seq<char>,
    pub expected: bool,
    pub acknowledged_land: bool,
}

/// Counts spawners of the four categories. Spawners are objects of the
/// garage classes in newer documents and named markers in older ones; the
/// discriminator to watch is fixed at construction. Counters saturate at
/// the machine limit.
#[derive(Debug)]
pub struct SpawnersCheck {
    pub count_land: u32,
    pub count_air: u32,
    pub count_sea: u32,
    pub count_thing: u32,
    pub data_type: String,
    pub expected: bool,
    pub acknowledged_land: bool,
}

impl View for SpawnersCheck {
    type V = SpawnersCheckView;

    open spec fn view(&self) -> SpawnersCheckView {
        SpawnersCheckView {
            count_land: self.count_land as int,
            count_air: self.count_air as int,
            count_sea: self.count_sea as int,
            count_thing: self.count_thing as int,
            data_type: self.data_type@,
            expected: self.expected,
            acknowledged_land: self.acknowledged_land,
        }
    }
}

/// One more, up to the machine limit.
pub open spec fn spec_inc(n: int) -> int {
    if n < u32::MAX {
        n + 1
    } else {
        n
    }
}

/// The spawner category a qualifying entity counts toward.
pub open spec fn spec_spawner_bump(
    v: SpawnersCheckView,
    class: Node,
    data_type: Seq<char>,
) -> SpawnersCheckView {
    if data_type == "Object"@ {
        match spec_get_string(class.children_seq(), "type"@) {
            None => v,
            Some((t, _)) => if t == "crate_client_garage_land_large"@ || t
                == "crate_client_garage_land_medium"@ || t == "crate_client_garage_land_small"@ {
                SpawnersCheckView { count_land: spec_inc(v.count_land), ..v }
            } else if t == "crate_client_garage_air_large"@ || t
                == "crate_client_garage_air_medium"@ || t == "crate_client_garage_air_small"@ {
                SpawnersCheckView { count_air: spec_inc(v.count_air), ..v }
            } else if t == "crate_client_garage_sea_large"@ || t
                == "crate_client_garage_sea_medium"@ || t == "crate_client_garage_sea_small"@ {
                SpawnersCheckView { count_sea: spec_inc(v.count_sea), ..v }
            } else if t == "crate_client_garage_thing_large"@ || t
                == "crate_client_garage_thing_medium"@ || t == "crate_client_garage_thing_small"@ {
                SpawnersCheckView { count_thing: spec_inc(v.count_thing), ..v }
            } else {
                v
            },
        }
    } else if data_type == "Marker"@ {
        match spec_get_string(class.children_seq(), "name"@) {
            None => v,
            Some((t, _)) => if t == "spawn_land"@ {
                SpawnersCheckView { count_land: spec_inc(v.count_land), ..v }
            } else if t == "spawn_air"@ {
                SpawnersCheckView { count_air: spec_inc(v.count_air), ..v }
            } else if t == "spawn_sea"@ {
                SpawnersCheckView { count_sea: spec_inc(v.count_sea), ..v }
            } else if t == "spawn_thing"@ {
                SpawnersCheckView { count_thing: spec_inc(v.count_thing), ..v }
            } else {
                v
            },
        }
    } else {
        v
    }
}

impl SpawnersCheck {
    /// A fresh rule: spawners are objects in document version 3, markers
    /// otherwise.
    pub fn new(expected: bool, version: u8, acknowledged_land: bool) -> (r: Self)
        ensures
            r@ == (SpawnersCheckView {
                count_land: 0,
                count_air: 0,
                count_sea: 0,
                count_thing: 0,
                data_type: if version == 3 {
                    "Object"@
                } else {
                    "Marker"@
                },
                expected,
                acknowledged_land,
            }),
    {
        SpawnersCheck {
            count_land: 0,
            count_air: 0,
            count_sea: 0,
            count_thing: 0,
            data_type: if version == 3 {
                String::from_str("Object")
            } else {
                String::from_str("Marker")
            },
            expected,
            acknowledged_land,
        }
    }

    /// The state after observing one entity: only entities of the watched
    /// discriminator count.
    pub open spec fn spec_observe(
        v: SpawnersCheckView,
        class: Node,
        data_type: Seq<char>,
    ) -> SpawnersCheckView {
        if data_type != v.data_type {
            v
        } else {
            spec_spawner_bump(v, class, data_type)
        }
    }

    pub fn object(
        &mut self,
        _mission: (&SourceFile, &Document),
        _dir: &str,
        class: &Node,
        data_type: &str,
    )
        ensures
            final(self)@ == Self::spec_observe(old(self)@, *class, data_type@),
    {
        if !str_eq(data_type, self.data_type.as_str()) {
            return;
        }
        if str_eq(data_type, "Object") {
            let Some((t, _)) = get_string(class, "type") else {
                return;
            };
            if str_eq(t, "crate_client_garage_land_large") || str_eq(
                t,
                "crate_client_garage_land_medium",
            ) || str_eq(t, "crate_client_garage_land_small") {
                if self.count_land < u32::MAX {
                    self.count_land = self.count_land + 1;
                }
            } else if str_eq(t, "crate_client_garage_air_large") || str_eq(
                t,
                "crate_client_garage_air_medium",
            ) || str_eq(t, "crate_client_garage_air_small") {
                if self.count_air < u32::MAX {
                    self.count_air = self.count_air + 1;
                }
            } else if str_eq(t, "crate_client_garage_sea_large") || str_eq(
                t,
                "crate_client_garage_sea_medium",
            ) || str_eq(t, "crate_client_garage_sea_small") {
                if self.count_sea < u32::MAX {
                    self.count_sea = self.count_sea + 1;
                }
            } else if str_eq(t, "crate_client_garage_thing_large") || str_eq(
                t,
                "crate_client_garage_thing_medium",
            ) || str_eq(t, "crate_client_garage_thing_small") {
                if self.count_thing < u32::MAX {
                    self.count_thing = self.count_thing + 1;
                }
            }
        } else if str_eq(data_type, "Marker") {
            let Some((name, _)) = get_string(class, "name") else {
                return;
            };
            if str_eq(name, "spawn_land") {
                if self.count_land < u32::MAX {
                    self.count_land = self.count_land + 1;
                }
            } else if str_eq(name, "spawn_air") {
                if self.count_air < u32::MAX {
                    self.count_air = self.count_air + 1;
                }
            } else if str_eq(name, "spawn_sea") {
                if self.count_sea < u32::MAX {
                    self.count_sea = self.count_sea + 1;
                }
            } else if str_eq(name, "spawn_thing") {
                if self.count_thing < u32::MAX {
                    self.count_thing = self.count_thing + 1;
                }
            }
        }
    }

    /// One finalize message against the mission file.
    pub open spec fn spec_msg(dir: Seq<char>, message: Seq<char>) -> AnnotationData {
        spec_annotation(
            None,
            spec_join(dir, "mission.sqm"@),
            Seq::empty(),
            Span { start: 0, end: 0 },
            message,
            Level::Error,
        )
    }

    /// The diagnostics at finalize. Where spawners are expected, a missing
    /// land or thing spawner is an error unless acknowledged; where they
    /// are not, each category found is an error.
    pub open spec fn spec_done(v: SpawnersCheckView, dir: Seq<char>) -> Seq<AnnotationData> {
        if v.expected {
            (if v.count_land == 0 && !v.acknowledged_land {
                seq![Self::spec_msg(dir, "No land spawner found"@)]
            } else {
                Seq::empty()
            }) + (if v.count_thing == 0 && !v.acknowledged_land {
                seq![Self::spec_msg(dir, "No thing spawner found"@)]
            } else {
                Seq::empty()
            })
        } else {
            (if v.count_land != 0 {
                seq![
                    Self::spec_msg(
                        dir,
                        "Land spawner found, but spawners are not allowed on this mission type"@,
                    ),
                ]
            } else {
                Seq::empty()
            }) + (if v.count_air != 0 {
                seq![
                    Self::spec_msg(
                        dir,
                        "Air spawner found, but spawners are not allowed on this mission type"@,
                    ),
                ]
            } else {
                Seq::empty()
            }) + (if v.count_sea != 0 {
                seq![
                    Self::spec_msg(
                        dir,
                        "Sea spawner found, but spawners are not allowed on this mission type"@,
                    ),
                ]
            } else {
                Seq::empty()
            }) + (if v.count_thing != 0 {
                seq![
                    Self::spec_msg(
                        dir,
                        "Thing spawner found, but spawners are not allowed on this mission type"@,
                    ),
                ]
            } else {
                Seq::empty()
            })
        }
    }

    pub fn done(&self, dir: &str) -> (r: Vec<Annotation>)
        ensures
            r.deep_view() == Self::spec_done(self@, dir@),
    {
        proof {
            reveal_strlit("");
        }
        let mut messages: Vec<Annotation> = Vec::new();
        if self.expected {
            if self.count_land == 0 && !self.acknowledged_land {
                messages.push(
                    Annotation::new(
                        None,
                        join_path(dir, "mission.sqm"),
                        "",
                        Span { start: 0, end: 0 },
                        String::from_str("No land spawner found"),
                        Level::Error,
                    ),
                );
            }
            if self.count_thing == 0 && !self.acknowledged_land {
                messages.push(
                    Annotation::new(
                        None,
                        join_path(dir, "mission.sqm"),
                        "",
                        Span { start: 0, end: 0 },
                        String::from_str("No thing spawner found"),
                        Level::Error,
                    ),
                );
            }
        } else {
            if self.count_land != 0 {
                messages.push(
                    Annotation::new(
                        None,
                        join_path(dir, "mission.sqm"),
                        "",
                        Span { start: 0, end: 0 },
                        String::from_str(
                            "Land spawner found, but spawners are not allowed on this mission type",
                        ),
                        Level::Error,
                    ),
                );
            }
            if self.count_air != 0 {
                messages.push(
                    Annotation::new(
                        None,
                        join_path(dir, "mission.sqm"),
                        "",
                        Span { start: 0, end: 0 },
                        String::from_str(
                            "Air spawner found, but spawners are not allowed on this mission type",
                        ),
                        Level::Error,
                    ),
                );
            }
            if self.count_sea != 0 {
                messages.push(
                    Annotation::new(
                        None,
                        join_path(dir, "mission.sqm"),
                        "",
                        Span { start: 0, end: 0 },
                        String::from_str(
                            "Sea spawner found, but spawners are not allowed on this mission type",
                        ),
                        Level::Error,
                    ),
                );
            }
            if self.count_thing != 0 {
                messages.push(
                    Annotation::new(
                        None,
                        join_path(dir, "mission.sqm"),
                        "",
                        Span { start: 0, end: 0 },
                        String::from_str(
                            "Thing spawner found, but spawners are not allowed on this mission type",
                        ),
                        Level::Error,
                    ),
                );
            }
        }
        proof {
            assert(messages.deep_view() =~= Self::spec_done(self@, dir@));
        }
        messages
    }
}

} // verus!

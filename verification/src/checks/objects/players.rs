//! A count-with-expectation rule: the number of playable units must match
//! the count named in the mission directory's name, and player slots must
//! use the required description and unit class.

use vstd::prelude::*;

use crate::annotation::{spec_annotation, Annotation, AnnotationData, Level, SourceFile};
use crate::text::{
    join_path, lemma_dec_value_extend_mono, lemma_digits_app, lemma_digits_are_digits,
    lemma_first_index_unique, spec_dec, spec_dec_value, spec_digits, spec_first_index, spec_join,
    str_eq, write_dec,
};
use crate::tree::{Document, Node, Span};
use crate::{get_class, get_number, get_string, spec_get_class, spec_get_number, spec_get_string};

verus! {

/// The player count a mission directory's name announces: the decimal
/// digits of the part before the first `_` (`CO30_...` announces 30), or 1
/// when the name has no `_`, no digits before it, or a number too large
/// for the machine.
pub open spec fn spec_expected(name: Seq<char>) -> int {
    let u = spec_first_index(name, '_');
    if u == name.len() {
        1
    } else {
        let ds = spec_digits(name.subrange(0, u));
        if ds.len() == 0 || spec_dec_value(ds) > usize::MAX {
            1
        } else {
            spec_dec_value(ds)
        }
    }
}

/// Reads the announced player count out of a mission directory's name.
pub fn expected_players(name: &str) -> (r: usize)
    ensures
        r as int == spec_expected(name@),
{
    let len = name.unicode_len();
    let mut u: usize = 0;
    while u < len && name.get_char(u) != '_'
        invariant
            len == name@.len(),
            u <= len,
            forall|j: int| 0 <= j < u ==> name@[j] != '_',
        decreases len - u,
    {
        u = u + 1;
    }
    proof {
        lemma_first_index_unique(name@, '_', u as int);
    }
    if u == len {
        return 1;
    }
    let ghost prefix = name@.subrange(0, u as int);
    let mut acc: usize = 0;
    let mut has_digit: bool = false;
    let mut i: usize = 0;
    while i < u
        invariant
            len == name@.len(),
            u < len,
            i <= u,
            u as int == spec_first_index(name@, '_'),
            prefix == name@.subrange(0, u as int),
            has_digit == (spec_digits(name@.subrange(0, i as int)).len() > 0),
            acc as int == spec_dec_value(spec_digits(name@.subrange(0, i as int))),
        decreases u - i,
    {
        let c = name.get_char(i);
        let cu = c as u32;
        let ghost pre_i = name@.subrange(0, i as int);
        let ghost post_i = name@.subrange(0, i + 1);
        proof {
            assert(post_i =~= pre_i + seq![name@[i as int]]);
            lemma_digits_app(pre_i, seq![name@[i as int]]);
            crate::text::lemma_digits_singleton(name@[i as int]);
        }
        if 48 <= cu && cu <= 57 {
            proof {
                assert(spec_digits(post_i) == spec_digits(pre_i) + seq![name@[i as int]]);
                assert(spec_digits(post_i).drop_last() =~= spec_digits(pre_i));
            }
            let d = (cu - 48) as usize;
            let overflowed = match acc.checked_mul(10) {
                Some(a1) => match a1.checked_add(d) {
                    Some(a2) => {
                        acc = a2;
                        has_digit = true;
                        false
                    },
                    None => true,
                },
                None => true,
            };
            if overflowed {
                proof {
                    let rest = name@.subrange(i + 1, u as int);
                    assert(prefix =~= post_i + rest);
                    lemma_digits_app(post_i, rest);
                    lemma_digits_are_digits(post_i);
                    lemma_digits_are_digits(rest);
                    lemma_dec_value_extend_mono(spec_digits(post_i), spec_digits(rest));
                    assert(spec_dec_value(spec_digits(prefix)) > usize::MAX);
                }
                return 1;
            }
        } else {
            proof {
                assert(spec_digits(post_i) =~= spec_digits(pre_i));
            }
        }
        i = i + 1;
    }
    proof {
        assert(name@.subrange(0, i as int) == prefix);
    }
    if !has_digit {
        return 1;
    }
    acc
}

/// The mathematical state of the player-count rule.
pub struct PlayerCheckView {
    pub count: int,
    pub expected: int,
    pub require_contractors: bool,
    pub messages: Seq<AnnotationData>,
}

/// Counts playable units against the count announced by the mission
/// directory's name, and, where demanded, checks each player slot's
/// description and unit class. The counter saturates at the machine limit.
#[derive(Debug)]
pub struct PlayerCheck {
    pub count: usize,
    pub expected: usize,
    pub require_contractors: bool,
    pub messages: Vec<Annotation>,
}

impl View for PlayerCheck {
    type V = PlayerCheckView;

    open spec fn view(&self) -> PlayerCheckView {
        PlayerCheckView {
            count: self.count as int,
            expected: self.expected as int,
            require_contractors: self.require_contractors,
            messages: self.messages.deep_view(),
        }
    }
}

impl PlayerCheck {
    /// A fresh rule for the mission directory named `dir_name`.
    pub fn new(dir_name: &str, require_contractors: bool) -> (r: Self)
        ensures
            r@ == (PlayerCheckView {
                count: 0,
                expected: spec_expected(dir_name@),
                require_contractors,
                messages: Seq::empty(),
            }),
    {
        let r = PlayerCheck {
            count: 0,
            expected: expected_players(dir_name),
            require_contractors,
            messages: Vec::new(),
        };
        proof {
            assert(r@.messages =~= Seq::<AnnotationData>::empty());
        }
        r
    }

    /// The state after observing one entity.
    pub open spec fn spec_observe(
        v: PlayerCheckView,
        m: SourceFile,
        dir: Seq<char>,
        class: Node,
        data_type: Seq<char>,
    ) -> PlayerCheckView {
        if data_type != "Object"@ {
            v
        } else {
            match spec_get_class(class.children_seq(), "Attributes"@) {
                None => v,
                Some(attrs) => match spec_get_number(attrs.children_seq(), "isPlayable"@) {
                    None => v,
                    Some((playable, _)) => if playable != 1 {
                        v
                    } else {
                        let v1 = PlayerCheckView {
                            count: if v.count < usize::MAX {
                                v.count + 1
                            } else {
                                v.count
                            },
                            ..v
                        };
                        if !v.require_contractors {
                            v1
                        } else {
                            match spec_get_string(attrs.children_seq(), "description"@) {
                                None => v1,
                                Some((desc, dspan)) => {
                                    let v2 = if desc != "Contractor"@ {
                                        PlayerCheckView {
                                            messages: v1.messages + seq![
                                                spec_annotation(
                                                    Some(m.mapping.entries@),
                                                    spec_join(dir, "mission.sqm"@),
                                                    m.content@,
                                                    dspan,
                                                    "Player description should be 'Contractor'"@,
                                                    Level::Error,
                                                ),
                                            ],
                                            ..v1
                                        }
                                    } else {
                                        v1
                                    };
                                    match spec_get_string(class.children_seq(), "type"@) {
                                        None => v2,
                                        Some((cls, cspan)) => if cls
                                            != "synixe_contractors_Unit_I_Contractor"@ {
                                            PlayerCheckView {
                                                messages: v2.messages + seq![
                                                    spec_annotation(
                                                        Some(m.mapping.entries@),
                                                        spec_join(dir, "mission.sqm"@),
                                                        m.content@,
                                                        cspan,
                                                        "Player class should be 'synixe_contractors_Unit_I_Contractor'"@,
                                                        Level::Error,
                                                    ),
                                                ],
                                                ..v2
                                            }
                                        } else {
                                            v2
                                        },
                                    }
                                },
                            }
                        }
                    },
                },
            }
        }
    }

    pub fn observe(
        &mut self,
        mission: (&SourceFile, &Document),
        dir: &str,
        class: &Node,
        data_type: &str,
    )
        requires
            mission.0.wf(),
        ensures
            final(self)@ == Self::spec_observe(old(self)@, *mission.0, dir@, *class, data_type@),
    {
        if !str_eq(data_type, "Object") {
            return;
        }
        let Some(attributes) = get_class(class, "Attributes") else {
            return;
        };
        let Some((playable, _)) = get_number(attributes, "isPlayable") else {
            return;
        };
        if playable != 1 {
            return;
        }
        if self.count < usize::MAX {
            self.count = self.count + 1;
        }
        if !self.require_contractors {
            return;
        }
        let Some((description, description_span)) = get_string(attributes, "description") else {
            return;
        };
        if !str_eq(description, "Contractor") {
            let a = Annotation::new(
                Some(&mission.0.mapping),
                join_path(dir, "mission.sqm"),
                mission.0.content.as_str(),
                description_span,
                String::from_str("Player description should be 'Contractor'"),
                Level::Error,
            );
            let ghost pre = self.messages.deep_view();
            self.messages.push(a);
            proof {
                assert(self.messages.deep_view() =~= pre + seq![a@]);
            }
        }
        let Some((cls, class_span)) = get_string(class, "type") else {
            return;
        };
        if !str_eq(cls, "synixe_contractors_Unit_I_Contractor") {
            let a = Annotation::new(
                Some(&mission.0.mapping),
                join_path(dir, "mission.sqm"),
                mission.0.content.as_str(),
                class_span,
                String::from_str("Player class should be 'synixe_contractors_Unit_I_Contractor'"),
                Level::Error,
            );
            let ghost pre = self.messages.deep_view();
            self.messages.push(a);
            proof {
                assert(self.messages.deep_view() =~= pre + seq![a@]);
            }
        }
    }

    /// The message of the count-mismatch diagnostic.
    pub open spec fn spec_count_message(expected: int, count: int) -> Seq<char> {
        "Expected "@ + spec_dec(expected as nat) + " players, found "@ + spec_dec(count as nat)
    }

    /// The diagnostics at finalize: every per-slot message, and one
    /// count-mismatch error exactly when the count differs from the
    /// expectation.
    pub open spec fn spec_done(v: PlayerCheckView, dir: Seq<char>) -> Seq<AnnotationData> {
        if v.count != v.expected {
            v.messages + seq![
                spec_annotation(
                    None,
                    "mission.sqm"@,
                    Seq::empty(),
                    Span { start: 0, end: 0 },
                    Self::spec_count_message(v.expected, v.count),
                    Level::Error,
                ),
            ]
        } else {
            v.messages
        }
    }

    pub fn done(&self, _dir: &str) -> (r: Vec<Annotation>)
        ensures
            r.deep_view() == Self::spec_done(self@, _dir@),
    {
        let mut messages = crate::annotation::clone_annotations(&self.messages);
        if self.count != self.expected {
            proof {
                reveal_strlit("");
            }
            let mut msg = String::from_str("Expected ");
            write_dec(&mut msg, self.expected);
            msg.append(" players, found ");
            write_dec(&mut msg, self.count);
            let a = Annotation::new(
                None,
                String::from_str("mission.sqm"),
                "",
                Span { start: 0, end: 0 },
                msg,
                Level::Error,
            );
            messages.push(a);
        }
        proof {
            assert(messages.deep_view() =~= Self::spec_done(self@, _dir@));
        }
        messages
    }
}

/// Count accuracy: finalize emits the count diagnostic when and only when
/// the counted occurrences differ from the expectation, whatever their
/// sizes; when they are equal only the per-slot messages come back.
pub proof fn lemma_count_accuracy(v: PlayerCheckView, dir: Seq<char>)
    ensures
        v.count == v.expected ==> PlayerCheck::spec_done(v, dir) == v.messages,
        v.count != v.expected ==> PlayerCheck::spec_done(v, dir).len() == v.messages.len() + 1,
        v.count != v.expected ==> PlayerCheck::spec_done(v, dir).last().message
            == PlayerCheck::spec_count_message(v.expected, v.count),
        PlayerCheck::spec_done(v, dir).len() > v.messages.len() <==> v.count != v.expected,
{
}

} // verus!

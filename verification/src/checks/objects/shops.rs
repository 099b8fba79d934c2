//! A counting rule over nested custom attributes: shop crates must be
//! present in number and must not be simple objects.

use vstd::prelude::*;

use crate::annotation::{spec_annotation, Annotation, AnnotationData, Level, SourceFile};
use crate::text::{join_path, spec_dec, spec_join, str_eq, write_dec};
use crate::tree::{Document, Node, Span};
use crate::{get_class, get_number, get_string, spec_get_class, spec_get_number, spec_get_string};

verus! {

/// How many shops a mission needs at least.
pub const REQUIRED_SHOPS: usize = 2;

/// The mathematical state of the shop rule.
pub struct ShopCheckView {
    pub messages: Seq<AnnotationData>,
    pub count: int,
}

/// Counts shop crates (objects carrying the shop custom attribute) and
/// flags shops created as simple objects. The counter saturates at the
/// machine limit.
#[derive(Debug)]
pub struct ShopCheck {
    pub messages: Vec<Annotation>,
    pub count: usize,
}

impl View for ShopCheck {
    type V = ShopCheckView;

    open spec fn view(&self) -> ShopCheckView {
        ShopCheckView { messages: self.messages.deep_view(), count: self.count as int }
    }
}

impl ShopCheck {
    pub fn new() -> (r: Self)
        ensures
            r@ == (ShopCheckView { messages: Seq::empty(), count: 0 }),
    {
        let r = ShopCheck { messages: Vec::new(), count: 0 };
        proof {
            assert(r@.messages =~= Seq::<AnnotationData>::empty());
        }
        r
    }

    /// The messages one attribute test adds: one error when the named
    /// property is present with value 1.
    pub open spec fn spec_check_attribute(
        dir: Seq<char>,
        content: Seq<char>,
        attrs: Node,
        property: Seq<char>,
        message: Seq<char>,
    ) -> Seq<AnnotationData> {
        match spec_get_number(attrs.children_seq(), property) {
            Some((value, span)) => if value == 1 {
                seq![
                    spec_annotation(
                        None,
                        spec_join(dir, "mission.sqm"@),
                        content,
                        span,
                        message,
                        Level::Error,
                    ),
                ]
            } else {
                Seq::empty()
            },
            None => Seq::empty(),
        }
    }

    /// Flags the property when it is set to 1.
    fn check_attribute(
        &mut self,
        dir: &str,
        content: &str,
        attributes: &Node,
        property: &str,
        message: String,
    )
        requires
            content@.len() < usize::MAX,
        ensures
            final(self)@.messages == old(self)@.messages + Self::spec_check_attribute(
                dir@,
                content@,
                *attributes,
                property@,
                message@,
            ),
            final(self)@.count == old(self)@.count,
    {
        if let Some((value, span)) = get_number(attributes, property) {
            if value == 1 {
                let a = Annotation::new(
                    None,
                    join_path(dir, "mission.sqm"),
                    content,
                    span,
                    message,
                    Level::Error,
                );
                let ghost pre = self.messages.deep_view();
                self.messages.push(a);
                proof {
                    assert(self.messages.deep_view() =~= pre + seq![a@]);
                }
                return;
            }
        }
        proof {
            assert(self.messages.deep_view() =~= self.messages.deep_view() + Seq::<
                AnnotationData,
            >::empty());
        }
    }

    /// The state after one custom-attribute child of an entity.
    pub open spec fn spec_observe_attr(
        v: ShopCheckView,
        dir: Seq<char>,
        content: Seq<char>,
        class: Node,
        attr: Node,
    ) -> ShopCheckView {
        match spec_get_string(attr.children_seq(), "property"@) {
            Some((p, _)) => if p == "crate_client_gear_attribute_shop"@ {
                let v1 = match spec_get_class(class.children_seq(), "Attributes"@) {
                    Some(attrs) => {
                        let add = Self::spec_check_attribute(
                            dir,
                            content,
                            attrs,
                            "createAsSimpleObject"@,
                            "shops must not be simple objects"@,
                        );
                        ShopCheckView { messages: v.messages + add + add, ..v }
                    },
                    None => v,
                };
                ShopCheckView {
                    count: if v1.count < usize::MAX {
                        v1.count + 1
                    } else {
                        v1.count
                    },
                    ..v1
                }
            } else {
                v
            },
            None => v,
        }
    }

    /// The state after a run of custom-attribute children, first to last.
    pub open spec fn spec_observe_attrs(
        v: ShopCheckView,
        dir: Seq<char>,
        content: Seq<char>,
        class: Node,
        attrs: Seq<Node>,
    ) -> ShopCheckView
        decreases attrs.len(),
    {
        if attrs.len() == 0 {
            v
        } else {
            Self::spec_observe_attrs(
                Self::spec_observe_attr(v, dir, content, class, attrs[0]),
                dir,
                content,
                class,
                attrs.drop_first(),
            )
        }
    }

    /// The state after observing one entity.
    pub open spec fn spec_observe(
        v: ShopCheckView,
        m: SourceFile,
        dir: Seq<char>,
        class: Node,
        data_type: Seq<char>,
    ) -> ShopCheckView {
        if data_type != "Object"@ {
            v
        } else {
            match spec_get_class(class.children_seq(), "CustomAttributes"@) {
                None => v,
                Some(customs) => Self::spec_observe_attrs(
                    v,
                    dir,
                    m.content@,
                    class,
                    customs.children_seq(),
                ),
            }
        }
    }

    pub fn observe(
        &mut self,
        mission: (&SourceFile, &Document),
        dir: &str,
        class: &Node,
        data_type: &str,
    )
        requires
            mission.0.wf(),
        ensures
            final(self)@ == Self::spec_observe(old(self)@, *mission.0, dir@, *class, data_type@),
    {
        if !str_eq(data_type, "Object") {
            return;
        }
        let Some(custom_attributes) = get_class(class, "CustomAttributes") else {
            return;
        };
        let children = crate::GetChildren::get_children(custom_attributes);
        let n = children.len();
        let content = mission.0.content.as_str();
        proof {
            assert(children@.subrange(0, n as int) =~= children@);
        }
        let mut i: usize = 0;
        while i < n
            invariant
                n == children@.len(),
                i <= n,
                content@ == mission.0.content@,
                content@.len() < usize::MAX,
                Self::spec_observe_attrs(self@, dir@, content@, *class, children@.subrange(i as int, n as int))
                    == Self::spec_observe_attrs(old(self)@, dir@, content@, *class, children@),
            decreases n - i,
        {
            let ghost pre = children@.subrange(i as int, n as int);
            proof {
                assert(pre[0] == children@[i as int]);
                assert(pre.drop_first() =~= children@.subrange(i + 1, n as int));
            }
            let attribute = &children[i];
            if let Some((property, _)) = get_string(attribute, "property") {
                if str_eq(property, "crate_client_gear_attribute_shop") {
                    if let Some(attributes) = get_class(class, "Attributes") {
                        self.check_attribute(
                            dir,
                            content,
                            attributes,
                            "createAsSimpleObject",
                            String::from_str("shops must not be simple objects"),
                        );
                        self.check_attribute(
                            dir,
                            content,
                            attributes,
                            "createAsSimpleObject",
                            String::from_str("shops must not be simple objects"),
                        );
                    }
                    if self.count < usize::MAX {
                        self.count = self.count + 1;
                    }
                }
            }
            i = i + 1;
        }
        proof {
            assert(children@.subrange(n as int, n as int).len() == 0);
        }
    }

    /// The diagnostics at finalize: the per-shop messages, then one error
    /// when no shop was found, or one when fewer than required were.
    pub open spec fn spec_done(v: ShopCheckView, dir: Seq<char>) -> Seq<AnnotationData> {
        if v.count == 0 {
            v.messages + seq![
                spec_annotation(
                    None,
                    spec_join(dir, "mission.sqm"@),
                    Seq::empty(),
                    Span { start: 0, end: 0 },
                    "No shops found"@,
                    Level::Error,
                ),
            ]
        } else if v.count < REQUIRED_SHOPS {
            v.messages + seq![
                spec_annotation(
                    None,
                    spec_join(dir, "mission.sqm"@),
                    Seq::empty(),
                    Span { start: 0, end: 0 },
                    "Not enough shops found, at least "@ + spec_dec(REQUIRED_SHOPS as nat)
                        + " are required"@,
                    Level::Error,
                ),
            ]
        } else {
            v.messages
        }
    }

    pub fn done(&self, dir: &str) -> (r: Vec<Annotation>)
        ensures
            r.deep_view() == Self::spec_done(self@, dir@),
    {
        let mut messages = crate::annotation::clone_annotations(&self.messages);
        proof {
            reveal_strlit("");
        }
        if self.count == 0 {
            let a = Annotation::new(
                None,
                join_path(dir, "mission.sqm"),
                "",
                Span { start: 0, end: 0 },
                String::from_str("No shops found"),
                Level::Error,
            );
            messages.push(a);
        } else if self.count < REQUIRED_SHOPS {
            let mut msg = String::from_str("Not enough shops found, at least ");
            write_dec(&mut msg, REQUIRED_SHOPS);
            msg.append(" are required");
            let a = Annotation::new(
                None,
                join_path(dir, "mission.sqm"),
                "",
                Span { start: 0, end: 0 },
                msg,
                Level::Error,
            );
            messages.push(a);
        }
        proof {
            assert(messages.deep_view() =~= Self::spec_done(self@, dir@));
        }
        messages
    }
}

impl Default for ShopCheck {
    fn default() -> (r: Self)
        ensures
            r@ == (ShopCheckView { messages: Seq::empty(), count: 0 }),
    {
        ShopCheck::new()
    }
}

} // verus!

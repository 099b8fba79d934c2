//! A rule engine over hierarchical configuration documents.
//!
//! The library walks a parsed document tree in two phases (entities, then
//! links), drives a fixed set of rule state machines over it, and renders
//! position-accurate diagnostics. Parsing and all file handling live in
//! front of the library; everything here is pure computation over the tree.
//!
//! This root module is the tree-access layer: typed lookup primitives over
//! any node that can enumerate ordered children.

use vstd::prelude::*;

pub mod annotation;
pub mod checks;
pub mod mission;
pub mod text;
pub mod tree;
pub mod versions;

use crate::annotation::{spec_annotation, Annotation, AnnotationData, Level};
use crate::tree::{Node, Span, Value};
use crate::text::{
    lemma_first_index_unique, spec_first_index, spec_starts_with, starts_with, str_eq,
};

verus! {

/// Anything with an ordered sequence of child nodes.
pub trait GetChildren {
    /// The children, as a mathematical sequence.
    spec fn children_view(&self) -> Seq<Node>;

    /// The children, in declaration order.
    fn get_children(&self) -> (r: &[Node])
        ensures
            r@ == self.children_view(),
    ;
}

impl GetChildren for tree::Document {
    open spec fn children_view(&self) -> Seq<Node> {
        self.nodes@
    }

    fn get_children(&self) -> (r: &[Node]) {
        self.nodes.as_slice()
    }
}

impl GetChildren for Node {
    open spec fn children_view(&self) -> Seq<Node> {
        self.children_seq()
    }

    fn get_children(&self) -> (r: &[Node]) {
        match self {
            Node::Class { children, .. } => children.as_slice(),
            Node::Entry { .. } => &[],
        }
    }
}

/// The first class child named `name`, if any.
pub open spec fn spec_find_class(children: Seq<Node>, name: Seq<char>) -> Option<Node>
    decreases children.len(),
{
    if children.len() == 0 {
        None
    } else {
        let matched = match children[0] {
            Node::Class { name: n, .. } => n@ == name,
            Node::Entry { .. } => false,
        };
        if matched {
            Some(children[0])
        } else {
            spec_find_class(children.drop_first(), name)
        }
    }
}

/// Resolution of a dotted path: at each segment, descend into the first
/// class child whose name equals the segment.
pub open spec fn spec_get_class(children: Seq<Node>, path: Seq<char>) -> Option<Node>
    decreases path.len(),
    via spec_get_class_decreases
{
    let d = spec_first_index(path, '.');
    match spec_find_class(children, path.subrange(0, d)) {
        None => None,
        Some(c) => if d == path.len() {
            Some(c)
        } else {
            spec_get_class(c.children_seq(), path.subrange(d + 1, path.len() as int))
        },
    }
}

#[via_fn]
proof fn spec_get_class_decreases(children: Seq<Node>, path: Seq<char>) {
    crate::text::lemma_first_index(path, '.');
}

/// The first class child of `children` named exactly `name`.
fn find_class<'a>(children: &'a [Node], name: &str) -> (r: Option<&'a Node>)
    ensures
        match r {
            Some(c) => spec_find_class(children@, name@) == Some(*c),
            None => spec_find_class(children@, name@) is None,
        },
{
    let n = children.len();
    proof {
        assert(children@.subrange(0, n as int) =~= children@);
    }
    let mut i: usize = 0;
    while i < n
        invariant
            n == children@.len(),
            i <= n,
            spec_find_class(children@, name@) == spec_find_class(children@.subrange(i as int, n as int), name@),
        decreases n - i,
    {
        let ghost pre = children@.subrange(i as int, n as int);
        match &children[i] {
            Node::Class { name: cname, .. } => {
                if str_eq(cname.as_str(), name) {
                    assert(pre[0] == children@[i as int]);
                    return Some(&children[i]);
                }
            },
            Node::Entry { .. } => {},
        }
        proof {
            assert(pre[0] == children@[i as int]);
            assert(pre.drop_first() =~= children@.subrange(i + 1, n as int));
        }
        i = i + 1;
    }
    proof {
        assert(children@.subrange(n as int, n as int).len() == 0);
    }
    None
}

fn get_class_in<'a>(children: &'a [Node], path: &str) -> (r: Option<&'a Node>)
    ensures
        match r {
            Some(c) => spec_get_class(children@, path@) == Some(*c),
            None => spec_get_class(children@, path@) is None,
        },
    decreases path@.len(),
{
    let len = path.unicode_len();
    let mut d: usize = 0;
    while d < len && path.get_char(d) != '.'
        invariant
            len == path@.len(),
            d <= len,
            forall|j: int| 0 <= j < d ==> path@[j] != '.',
        decreases len - d,
    {
        d = d + 1;
    }
    proof {
        lemma_first_index_unique(path@, '.', d as int);
    }
    let seg = path.substring_char(0, d);
    proof {
        assert(seg@ == path@.subrange(0, spec_first_index(path@, '.')));
    }
    match find_class(children, seg) {
        None => None,
        Some(c) => {
            if d == len {
                Some(c)
            } else {
                let rest = path.substring_char(d + 1, len);
                proof {
                    assert(rest@ == path@.subrange(d + 1, len as int));
                }
                get_class_in(c.get_children(), rest)
            }
        },
    }
}

/// Splits `path` on `.` and descends: at each segment, finds the first
/// class child whose name equals the segment; returns the innermost match,
/// or `None` as soon as a segment fails to resolve.
pub fn get_class<'a, P: GetChildren>(parent: &'a P, path: &str) -> (r: Option<&'a Node>)
    ensures
        match r {
            Some(c) => spec_get_class(parent.children_view(), path@) == Some(*c),
            None => spec_get_class(parent.children_view(), path@) is None,
        },
{
    get_class_in(parent.get_children(), path)
}

/// The first entry child named `name` whose value is an integer.
pub open spec fn spec_get_number(children: Seq<Node>, name: Seq<char>) -> Option<(i32, Span)>
    decreases children.len(),
{
    if children.len() == 0 {
        None
    } else {
        let found = match children[0] {
            Node::Entry { name: n, value: Value::Int { value, span } } => if n@ == name {
                Some((value, span))
            } else {
                None
            },
            _ => None,
        };
        if found is Some {
            found
        } else {
            spec_get_number(children.drop_first(), name)
        }
    }
}

/// The first entry child named `name` whose value is a string.
pub open spec fn spec_get_string(children: Seq<Node>, name: Seq<char>) -> Option<(Seq<char>, Span)>
    decreases children.len(),
{
    if children.len() == 0 {
        None
    } else {
        let found = match children[0] {
            Node::Entry { name: n, value: Value::Str { value, span } } => if n@ == name {
                Some((value@, span))
            } else {
                None
            },
            _ => None,
        };
        if found is Some {
            found
        } else {
            spec_get_string(children.drop_first(), name)
        }
    }
}

/// The first entry child named `name` whose value is a decimal scalar,
/// in thousandths.
pub open spec fn spec_get_float(children: Seq<Node>, name: Seq<char>) -> Option<(i64, Span)>
    decreases children.len(),
{
    if children.len() == 0 {
        None
    } else {
        let found = match children[0] {
            Node::Entry { name: n, value: Value::Float { milli, span } } => if n@ == name {
                Some((milli, span))
            } else {
                None
            },
            _ => None,
        };
        if found is Some {
            found
        } else {
            spec_get_float(children.drop_first(), name)
        }
    }
}

/// Finds the first entry child named `name` holding an integer; an entry of
/// the same name with another value kind is passed over, exactly as an
/// absent entry is.
pub fn get_number<P: GetChildren>(parent: &P, name: &str) -> (r: Option<(i32, Span)>)
    ensures
        r == spec_get_number(parent.children_view(), name@),
{
    let children = parent.get_children();
    let n = children.len();
    proof {
        assert(children@.subrange(0, n as int) =~= children@);
    }
    let mut i: usize = 0;
    while i < n
        invariant
            children@ == parent.children_view(),
            n == children@.len(),
            i <= n,
            spec_get_number(children@, name@) == spec_get_number(
                children@.subrange(i as int, n as int),
                name@,
            ),
        decreases n - i,
    {
        let ghost pre = children@.subrange(i as int, n as int);
        proof {
            assert(pre[0] == children@[i as int]);
            assert(pre.drop_first() =~= children@.subrange(i + 1, n as int));
        }
        match &children[i] {
            Node::Entry { name: ename, value: Value::Int { value, span } } => {
                if str_eq(ename.as_str(), name) {
                    assert(spec_get_number(pre, name@) == Some((*value, *span)));
                    return Some((*value, *span));
                }
            },
            _ => {},
        }
        i = i + 1;
    }
    None
}

/// Finds the first entry child named `name` holding a string, with its span.
pub fn get_string<'a, P: GetChildren>(parent: &'a P, name: &str) -> (r: Option<(&'a str, Span)>)
    ensures
        match r {
            Some((s, span)) => spec_get_string(parent.children_view(), name@) == Some((s@, span)),
            None => spec_get_string(parent.children_view(), name@) is None,
        },
{
    let children = parent.get_children();
    let n = children.len();
    proof {
        assert(children@.subrange(0, n as int) =~= children@);
    }
    let mut i: usize = 0;
    while i < n
        invariant
            children@ == parent.children_view(),
            n == children@.len(),
            i <= n,
            spec_get_string(children@, name@) == spec_get_string(
                children@.subrange(i as int, n as int),
                name@,
            ),
        decreases n - i,
    {
        let ghost pre = children@.subrange(i as int, n as int);
        proof {
            assert(pre[0] == children@[i as int]);
            assert(pre.drop_first() =~= children@.subrange(i + 1, n as int));
        }
        match &children[i] {
            Node::Entry { name: ename, value: Value::Str { value, span } } => {
                if str_eq(ename.as_str(), name) {
                    assert(spec_get_string(pre, name@) == Some((value@, *span)));
                    return Some((value.as_str(), *span));
                }
            },
            _ => {},
        }
        i = i + 1;
    }
    None
}

/// Finds the first entry child named `name` holding a decimal scalar, in
/// thousandths.
pub fn get_float<P: GetChildren>(parent: &P, name: &str) -> (r: Option<(i64, Span)>)
    ensures
        r == spec_get_float(parent.children_view(), name@),
{
    let children = parent.get_children();
    let n = children.len();
    proof {
        assert(children@.subrange(0, n as int) =~= children@);
    }
    let mut i: usize = 0;
    while i < n
        invariant
            children@ == parent.children_view(),
            n == children@.len(),
            i <= n,
            spec_get_float(children@, name@) == spec_get_float(
                children@.subrange(i as int, n as int),
                name@,
            ),
        decreases n - i,
    {
        let ghost pre = children@.subrange(i as int, n as int);
        proof {
            assert(pre[0] == children@[i as int]);
            assert(pre.drop_first() =~= children@.subrange(i + 1, n as int));
        }
        match &children[i] {
            Node::Entry { name: ename, value: Value::Float { milli, span } } => {
                if str_eq(ename.as_str(), name) {
                    assert(spec_get_float(pre, name@) == Some((*milli, *span)));
                    return Some((*milli, *span));
                }
            },
            _ => {},
        }
        i = i + 1;
    }
    None
}

/// Type-safe lookup: when every entry of `children` named `name` holds a
/// string, `spec_get_number` finds nothing — a string value is never
/// coerced to a number.
pub proof fn lemma_lookup_type_safety(children: Seq<Node>, name: Seq<char>)
    requires
        forall|i: int| 0 <= i < children.len() ==> match #[trigger] children[i] {
            Node::Entry { name: n, value } => n@ == name ==> value is Str,
            Node::Class { .. } => true,
        },
    ensures
        spec_get_number(children, name) is None,
    decreases children.len(),
{
    if children.len() > 0 {
        assert(forall|i: int| 0 <= i < children.drop_first().len()
            ==> children.drop_first()[i] == children[i + 1]);
        lemma_lookup_type_safety(children.drop_first(), name);
    }
}

/// The diagnostics of the directory-name check.
pub open spec fn spec_check_prefix(
    dir: Seq<char>,
    name: Seq<char>,
    is_dir: bool,
    nested: bool,
) -> Seq<AnnotationData> {
    if !is_dir {
        seq![
            spec_annotation(
                None,
                dir,
                Seq::empty(),
                Span { start: 0, end: 0 },
                "Not a directory"@,
                Level::Error,
            ),
        ]
    } else {
        let allowed = if nested {
            spec_starts_with(name, "CCO"@) || spec_starts_with(name, "TCO"@) || spec_starts_with(
                name,
                "TT"@,
            )
        } else {
            spec_starts_with(name, "CO"@) || spec_starts_with(name, "SCO"@) || spec_starts_with(
                name,
                "TRA"@,
            )
        };
        if !allowed {
            seq![
                spec_annotation(
                    None,
                    dir,
                    Seq::empty(),
                    Span { start: 0, end: 0 },
                    "Invalid prefix for "@ + dir,
                    Level::Error,
                ),
            ]
        } else {
            Seq::empty()
        }
    }
}

/// Checks a mission directory's name against the allowed prefixes — one
/// set for directories nested under a campaign, another for flat ones.
/// `dir` is the directory's path, `name` its bare name, and `is_dir`
/// whether the path names a directory at all.
pub fn check_prefix(dir: &str, name: &str, is_dir: bool, nested: bool) -> (r: Result<
    Vec<Annotation>,
    String,
>)
    ensures
        match r {
            Ok(msgs) => msgs.deep_view() == spec_check_prefix(dir@, name@, is_dir, nested),
            Err(_) => false,
        },
{
    proof {
        reveal_strlit("");
    }
    let mut messages: Vec<Annotation> = Vec::new();
    if !is_dir {
        let a = Annotation::new(
            None,
            String::from_str(dir),
            "",
            Span { start: 0, end: 0 },
            String::from_str("Not a directory"),
            Level::Error,
        );
        messages.push(a);
        proof {
            assert(messages.deep_view() =~= spec_check_prefix(dir@, name@, is_dir, nested));
        }
        return Ok(messages);
    }
    let allowed = if nested {
        starts_with(name, "CCO") || starts_with(name, "TCO") || starts_with(name, "TT")
    } else {
        starts_with(name, "CO") || starts_with(name, "SCO") || starts_with(name, "TRA")
    };
    if !allowed {
        let mut msg = String::from_str("Invalid prefix for ");
        msg.append(dir);
        let a = Annotation::new(
            None,
            String::from_str(dir),
            "",
            Span { start: 0, end: 0 },
            msg,
            Level::Error,
        );
        messages.push(a);
        proof {
            assert(messages.deep_view() =~= spec_check_prefix(dir@, name@, is_dir, nested));
        }
        return Ok(messages);
    }
    proof {
        assert(messages.deep_view() =~= spec_check_prefix(dir@, name@, is_dir, nested));
    }
    Ok(messages)
}

} // verus!

//! The document tree: an ordered, named-child tree of classes and entries,
//! with character spans on every scalar value.
//!
//! A parser in front of the library builds this tree; the library itself
//! never reads files. Scalar decimal values are held in thousandths
//! (`milli`), so that range rules compare plain integers.

use vstd::prelude::*;

verus! {

/// A half-open character-offset range `[start, end)` in processed text.
#[derive(Clone, Copy, Debug, PartialEq, Eq, Structural)]
pub struct Span {
    pub start: usize,
    pub end: usize,
}

/// The value of an entry.
#[derive(Debug)]
pub enum Value {
    /// A quoted string.
    Str { value: String, span: Span },
    /// A 32-bit integer.
    Int { value: i32, span: Span },
    /// A decimal scalar, held in thousandths.
    Float { milli: i64, span: Span },
    /// An array; no check reads inside one, only its position is kept.
    Array { span: Span },
}

impl Value {
    /// The span of the value in processed text.
    pub open spec fn spec_span(self) -> Span {
        match self {
            Value::Str { span, .. } => span,
            Value::Int { span, .. } => span,
            Value::Float { span, .. } => span,
            Value::Array { span } => span,
        }
    }

    /// The originating span of this value.
    pub fn span(&self) -> (r: Span)
        ensures
            r == self.spec_span(),
    {
        match self {
            Value::Str { span, .. } => *span,
            Value::Int { span, .. } => *span,
            Value::Float { span, .. } => *span,
            Value::Array { span } => *span,
        }
    }
}

/// One node of the document tree.
#[derive(Debug)]
pub enum Node {
    /// A named class with ordered children and an optional declared parent.
    Class { name: String, parent: Option<String>, children: Vec<Node> },
    /// A named scalar entry.
    Entry { name: String, value: Value },
}

/// A whole document: the root's ordered top-level nodes.
#[derive(Debug)]
pub struct Document {
    pub nodes: Vec<Node>,
}

impl Node {
    /// The node's ordered children; an entry has none.
    pub open spec fn children_seq(self) -> Seq<Node> {
        match self {
            Node::Class { children, .. } => children@,
            Node::Entry { .. } => Seq::empty(),
        }
    }

    /// The node's name.
    pub open spec fn name_seq(self) -> Seq<char> {
        match self {
            Node::Class { name, .. } => name@,
            Node::Entry { name, .. } => name@,
        }
    }
}

/// The size of a node: itself plus everything below it.
pub open spec fn node_size(n: Node) -> nat
    decreases n,
{
    match n {
        Node::Class { children, .. } => 1 + nodes_size(children@),
        Node::Entry { .. } => 1,
    }
}

/// The summed size of a sequence of nodes.
pub open spec fn nodes_size(s: Seq<Node>) -> nat
    decreases s,
{
    if s.len() == 0 {
        0
    } else {
        node_size(s[0]) + nodes_size(s.drop_first())
    }
}

/// Every node counts itself, so a sequence is at least as big as each member.
pub proof fn lemma_nodes_size_ge_member(s: Seq<Node>, i: int)
    requires
        0 <= i < s.len(),
    ensures
        node_size(s[i]) <= nodes_size(s),
    decreases s.len(),
{
    if i == 0 {
    } else {
        lemma_nodes_size_ge_member(s.drop_first(), i - 1);
        assert(s.drop_first()[i - 1] == s[i]);
    }
}

} // verus!

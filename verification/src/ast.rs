//! The shapes of host expressions that a query is read from.

use vstd::prelude::*;
use crate::error::Span;

verus! {

/// A binary operator of the host language.
#[derive(Clone, Copy, Debug, PartialEq, Eq, Structural)]
pub enum BinaryOp {
    And,
    Or,
    Eq,
    Ne,
    Lt,
    Le,
    Gt,
    Ge,
    Assign,
    /// Any other operator.
    Other,
}

/// A unary operator of the host language.
#[derive(Clone, Copy, Debug, PartialEq, Eq, Structural)]
pub enum UnaryOp {
    Not,
    Neg,
    /// Any other operator.
    Other,
}

/// A host expression, as far as its shape matters to a query.
#[derive(Debug, PartialEq, Eq)]
pub enum Node {
    /// A name.
    Ident(String, Span),
    /// An integer literal.
    IntLit(i64, Span),
    /// A string literal.
    StrLit(String, Span),
    /// A boolean literal.
    BoolLit(bool, Span),
    /// `receiver.name(args)`.
    MethodCall(Box<Node>, String, Vec<Node>, Span),
    /// `name(args)`.
    Call(String, Vec<Node>, Span),
    /// `receiver.name`.
    Field(Box<Node>, String, Span),
    /// `lhs op rhs`.
    BinOp(BinaryOp, Box<Node>, Box<Node>, Span),
    /// `op expr`.
    UnaryOp(UnaryOp, Box<Node>, Span),
    /// `receiver[index]`.
    Index(Box<Node>, Box<Node>, Span),
    /// `start..end`, where either bound may be missing.
    Range(Option<Box<Node>>, Option<Box<Node>>, Span),
    /// `(inner)`.
    Paren(Box<Node>),
    /// `(a, b, ...)`.
    Tuple(Vec<Node>),
    /// Any other expression.
    Other(Span),
}

/// The mathematical content of a `Node`.
pub enum NodeView {
    Ident(Seq<char>, Span),
    IntLit(i64, Span),
    StrLit(Seq<char>, Span),
    BoolLit(bool, Span),
    MethodCall(Box<NodeView>, Seq<char>, Seq<NodeView>, Span),
    Call(Seq<char>, Seq<NodeView>, Span),
    Field(Box<NodeView>, Seq<char>, Span),
    BinOp(BinaryOp, Box<NodeView>, Box<NodeView>, Span),
    UnaryOp(UnaryOp, Box<NodeView>, Span),
    Index(Box<NodeView>, Box<NodeView>, Span),
    Range(Option<Box<NodeView>>, Option<Box<NodeView>>, Span),
    Paren(Box<NodeView>),
    Tuple(Seq<NodeView>),
    Other(Span),
}

/// The content of an expression, by recursion on its shape.
pub open spec fn node_view(node: Node) -> NodeView
    decreases node,
{
    match node {
        Node::Ident(name, span) => NodeView::Ident(name@, span),
        Node::IntLit(i, span) => NodeView::IntLit(i, span),
        Node::StrLit(s, span) => NodeView::StrLit(s@, span),
        Node::BoolLit(b, span) => NodeView::BoolLit(b, span),
        Node::MethodCall(receiver, name, args, span) => NodeView::MethodCall(
            Box::new(node_view(*receiver)),
            name@,
            Seq::new(
                args@.len(),
                |i: int|
                    if 0 <= i < args@.len() {
                        node_view(args@[i])
                    } else {
                        NodeView::Other(span)
                    },
            ),
            span,
        ),
        Node::Call(name, args, span) => NodeView::Call(
            name@,
            Seq::new(
                args@.len(),
                |i: int|
                    if 0 <= i < args@.len() {
                        node_view(args@[i])
                    } else {
                        NodeView::Other(span)
                    },
            ),
            span,
        ),
        Node::Field(receiver, name, span) => NodeView::Field(
            Box::new(node_view(*receiver)),
            name@,
            span,
        ),
        Node::BinOp(op, lhs, rhs, span) => NodeView::BinOp(
            op,
            Box::new(node_view(*lhs)),
            Box::new(node_view(*rhs)),
            span,
        ),
        Node::UnaryOp(op, inner, span) => NodeView::UnaryOp(op, Box::new(node_view(*inner)), span),
        Node::Index(receiver, index, span) => NodeView::Index(
            Box::new(node_view(*receiver)),
            Box::new(node_view(*index)),
            span,
        ),
        Node::Range(start, end, span) => NodeView::Range(
            match start {
                Some(a) => Some(Box::new(node_view(*a))),
                None => None,
            },
            match end {
                Some(b) => Some(Box::new(node_view(*b))),
                None => None,
            },
            span,
        ),
        Node::Paren(inner) => NodeView::Paren(Box::new(node_view(*inner))),
        Node::Tuple(items) => NodeView::Tuple(
            Seq::new(
                items@.len(),
                |i: int|
                    if 0 <= i < items@.len() {
                        node_view(items@[i])
                    } else {
                        NodeView::Tuple(Seq::empty())
                    },
            ),
        ),
        Node::Other(span) => NodeView::Other(span),
    }
}

impl View for Node {
    type V = NodeView;

    open spec fn view(&self) -> NodeView {
        node_view(*self)
    }
}

impl DeepView for Node {
    type V = NodeView;

    open spec fn deep_view(&self) -> NodeView {
        self@
    }
}

/// The arguments of a call have the contents of the expressions given.
pub proof fn lemma_argument_views(node: Node)
    ensures
        node matches Node::MethodCall(_, _, args, _) ==> node@ matches NodeView::MethodCall(
            _,
            _,
            views,
            _,
        ) && views == args.deep_view(),
        node matches Node::Call(_, args, _) ==> node@ matches NodeView::Call(_, views, _) && views
            == args.deep_view(),
        node matches Node::Tuple(items) ==> node@ matches NodeView::Tuple(views) && views
            == items.deep_view(),
{
    match node {
        Node::MethodCall(_, _, args, _) => {
        },
        Node::Call(_, args, _) => {
        },
        Node::Tuple(items) => {
        },
        _ => {},
    }
}

/// Where the expression stands in the source. An expression in
/// parentheses stands where the inner one does, and a tuple from its first
/// element to its last.
pub open spec fn span_of(node: NodeView) -> Span
    decreases node,
{
    match node {
        NodeView::Ident(_, span) => span,
        NodeView::IntLit(_, span) => span,
        NodeView::StrLit(_, span) => span,
        NodeView::BoolLit(_, span) => span,
        NodeView::MethodCall(_, _, _, span) => span,
        NodeView::Call(_, _, span) => span,
        NodeView::Field(_, _, span) => span,
        NodeView::BinOp(_, _, _, span) => span,
        NodeView::UnaryOp(_, _, span) => span,
        NodeView::Index(_, _, span) => span,
        NodeView::Range(_, _, span) => span,
        NodeView::Paren(inner) => span_of(*inner),
        NodeView::Tuple(items) => if items.len() == 0 {
            Span { lo: 0, hi: 0 }
        } else {
            Span { lo: span_of(items[0]).lo, hi: span_of(items[items.len() - 1]).hi }
        },
        NodeView::Other(span) => span,
    }
}

impl Node {
    /// Where the expression stands in the source.
    pub fn span(&self) -> (r: Span)
        ensures
            r == span_of(self@),
        decreases self,
    {
        match self {
            Node::Ident(_, span) => *span,
            Node::IntLit(_, span) => *span,
            Node::StrLit(_, span) => *span,
            Node::BoolLit(_, span) => *span,
            Node::MethodCall(_, _, _, span) => *span,
            Node::Call(_, _, span) => *span,
            Node::Field(_, _, span) => *span,
            Node::BinOp(_, _, _, span) => *span,
            Node::UnaryOp(_, _, span) => *span,
            Node::Index(_, _, span) => *span,
            Node::Range(_, _, span) => *span,
            Node::Paren(inner) => inner.span(),
            Node::Tuple(items) => {
                if items.len() == 0 {
                    Span { lo: 0, hi: 0 }
                } else {
                    Span { lo: items[0].span().lo, hi: items[items.len() - 1].span().hi }
                }
            },
            Node::Other(span) => *span,
        }
    }
}

} // verus!

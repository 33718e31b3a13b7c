//! The expression tree that the parser builds.
use vstd::prelude::*;
use crate::tokenizer::{Token, TokenView};

verus! {

#[derive(Debug, Clone, Copy, PartialEq, Eq, Structural)]
pub enum ExprKind {
    Literal,
    UnaryNegate,
    Group,
    Add,
    PreIncrement,
    PostIncrement,
    PreDecrement,
    PostDecrement,
}

impl ExprKind {
    /// The kinds whose node holds exactly one child expression.
    pub open spec fn has_one_child(self) -> bool {
        self != ExprKind::Literal && self != ExprKind::Add
    }
}

/// An expression: each node owns its children.
#[derive(Debug)]
pub enum Expr<'a> {
    Literal(Token<'a>),
    UnaryNegate(Box<Expr<'a>>),
    Group(Box<Expr<'a>>),
    Add(Box<Expr<'a>>, Box<Expr<'a>>),
    PreIncrement(Box<Expr<'a>>),
    PostIncrement(Box<Expr<'a>>),
    PreDecrement(Box<Expr<'a>>),
    PostDecrement(Box<Expr<'a>>),
}

/// An expression as a mathematical tree.
pub enum Ast {
    Literal(TokenView),
    Node(ExprKind, Box<Ast>),
    Add(Box<Ast>, Box<Ast>),
}

/// The last token of a tree: that of its rightmost leaf.
pub open spec fn last_of(a: Ast) -> TokenView
    decreases a,
{
    match a {
        Ast::Literal(t) => t,
        Ast::Node(_, c) => last_of(*c),
        Ast::Add(_, r) => last_of(*r),
    }
}

impl<'a> Expr<'a> {
    pub open spec fn model(&self) -> Ast
        decreases self,
    {
        match self {
            Expr::Literal(t) => Ast::Literal(t@),
            Expr::UnaryNegate(c) => Ast::Node(ExprKind::UnaryNegate, Box::new(c.model())),
            Expr::Group(c) => Ast::Node(ExprKind::Group, Box::new(c.model())),
            Expr::Add(l, r) => Ast::Add(Box::new(l.model()), Box::new(r.model())),
            Expr::PreIncrement(c) => Ast::Node(ExprKind::PreIncrement, Box::new(c.model())),
            Expr::PostIncrement(c) => Ast::Node(ExprKind::PostIncrement, Box::new(c.model())),
            Expr::PreDecrement(c) => Ast::Node(ExprKind::PreDecrement, Box::new(c.model())),
            Expr::PostDecrement(c) => Ast::Node(ExprKind::PostDecrement, Box::new(c.model())),
        }
    }

    pub open spec fn spec_kind(&self) -> ExprKind {
        match self {
            Expr::Literal(_) => ExprKind::Literal,
            Expr::UnaryNegate(_) => ExprKind::UnaryNegate,
            Expr::Group(_) => ExprKind::Group,
            Expr::Add(_, _) => ExprKind::Add,
            Expr::PreIncrement(_) => ExprKind::PreIncrement,
            Expr::PostIncrement(_) => ExprKind::PostIncrement,
            Expr::PreDecrement(_) => ExprKind::PreDecrement,
            Expr::PostDecrement(_) => ExprKind::PostDecrement,
        }
    }

    /// The kind of the node.
    #[verifier::when_used_as_spec(spec_kind)]
    pub fn kind(&self) -> (r: ExprKind)
        ensures
            r == self.spec_kind(),
    {
        match self {
            Expr::Literal(_) => ExprKind::Literal,
            Expr::UnaryNegate(_) => ExprKind::UnaryNegate,
            Expr::Group(_) => ExprKind::Group,
            Expr::Add(_, _) => ExprKind::Add,
            Expr::PreIncrement(_) => ExprKind::PreIncrement,
            Expr::PostIncrement(_) => ExprKind::PostIncrement,
            Expr::PreDecrement(_) => ExprKind::PreDecrement,
            Expr::PostDecrement(_) => ExprKind::PostDecrement,
        }
    }

    /// An addition of two operands, in this order.
    pub fn new(left: Expr<'a>, right: Expr<'a>) -> (r: Expr<'a>)
        ensures
            r.model() == Ast::Add(Box::new(left.model()), Box::new(right.model())),
    {
        Expr::Add(Box::new(left), Box::new(right))
    }

    /// A node of one of the kinds that hold a single child.
    pub fn expr(kind: ExprKind, expr: Expr<'a>) -> (r: Expr<'a>)
        requires
            kind.has_one_child(),
        ensures
            r.model() == Ast::Node(kind, Box::new(expr.model())),
    {
        match kind {
            ExprKind::UnaryNegate => Expr::UnaryNegate(Box::new(expr)),
            ExprKind::Group => Expr::Group(Box::new(expr)),
            ExprKind::PreIncrement => Expr::PreIncrement(Box::new(expr)),
            ExprKind::PostIncrement => Expr::PostIncrement(Box::new(expr)),
            ExprKind::PreDecrement => Expr::PreDecrement(Box::new(expr)),
            _ => Expr::PostDecrement(Box::new(expr)),
        }
    }

    /// A literal leaf.
    pub fn value(value: Token<'a>) -> (r: Expr<'a>)
        ensures
            r.model() == Ast::Literal(value@),
    {
        Expr::Literal(value)
    }

    /// A parenthesised group.
    pub fn group(expr: Expr<'a>) -> (r: Expr<'a>)
        ensures
            r.model() == Ast::Node(ExprKind::Group, Box::new(expr.model())),
    {
        Expr::Group(Box::new(expr))
    }

    /// The last token that belongs to the expression.
    pub fn last_token(expr: &Expr<'a>) -> (r: Token<'a>)
        ensures
            r@ == last_of(expr.model()),
        decreases expr,
    {
        match expr {
            Expr::Literal(t) => *t,
            Expr::Add(_, r) => Expr::last_token(r),
            Expr::UnaryNegate(c) => Expr::last_token(c),
            Expr::Group(c) => Expr::last_token(c),
            Expr::PreIncrement(c) => Expr::last_token(c),
            Expr::PostIncrement(c) => Expr::last_token(c),
            Expr::PreDecrement(c) => Expr::last_token(c),
            Expr::PostDecrement(c) => Expr::last_token(c),
        }
    }
}

} // verus!

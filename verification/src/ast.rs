//! The source expression tree and its mathematical model.

use vstd::prelude::*;

verus! {

/// Binary operators of the source language.
#[derive(Debug, Clone, PartialEq)]
pub enum BinOp {
    Add,
    Sub,
    Mul,
    Div,
    Mod,
    Eq,
    Ne,
    Lt,
    Le,
    Gt,
    Ge,
    And,
    Or,
}

/// Unary operators of the source language.
#[derive(Debug, Clone, PartialEq)]
pub enum UnaryOp {
    Neg,
    Not,
}

/// Source expression tree, as produced by the parser.
#[derive(Debug, PartialEq)]
pub enum Expr {
    /// Integer literal
    Int(i64),
    /// Boolean literal
    Bool(bool),
    /// Variable reference
    Var(String),
    /// Secret marker: the wrapped value is sensitive
    Secret(Box<Expr>),
    /// Binary operation
    BinOp { op: BinOp, left: Box<Expr>, right: Box<Expr> },
    /// Unary operation
    UnaryOp { op: UnaryOp, expr: Box<Expr> },
    /// If-then-else expression
    If { cond: Box<Expr>, then_branch: Box<Expr>, else_branch: Box<Expr> },
    /// Let binding
    Let { name: String, value: Box<Expr>, body: Box<Expr> },
}

/// Mathematical model of a source expression: integers are unbounded and
/// variable names are character sequences.
pub enum ExprV {
    Int(int),
    Bool(bool),
    Var(Seq<char>),
    Secret(Box<ExprV>),
    BinOp { op: BinOp, left: Box<ExprV>, right: Box<ExprV> },
    UnaryOp { op: UnaryOp, expr: Box<ExprV> },
    If { cond: Box<ExprV>, then_branch: Box<ExprV>, else_branch: Box<ExprV> },
    Let { name: Seq<char>, value: Box<ExprV>, body: Box<ExprV> },
}

pub open spec fn expr_view(e: Expr) -> ExprV
    decreases e,
{
    match e {
        Expr::Int(n) => ExprV::Int(n as int),
        Expr::Bool(b) => ExprV::Bool(b),
        Expr::Var(name) => ExprV::Var(name@),
        Expr::Secret(inner) => ExprV::Secret(Box::new(expr_view(*inner))),
        Expr::BinOp { op, left, right } => ExprV::BinOp {
            op,
            left: Box::new(expr_view(*left)),
            right: Box::new(expr_view(*right)),
        },
        Expr::UnaryOp { op, expr } => ExprV::UnaryOp { op, expr: Box::new(expr_view(*expr)) },
        Expr::If { cond, then_branch, else_branch } => ExprV::If {
            cond: Box::new(expr_view(*cond)),
            then_branch: Box::new(expr_view(*then_branch)),
            else_branch: Box::new(expr_view(*else_branch)),
        },
        Expr::Let { name, value, body } => ExprV::Let {
            name: name@,
            value: Box::new(expr_view(*value)),
            body: Box::new(expr_view(*body)),
        },
    }
}

impl View for Expr {
    type V = ExprV;

    open spec fn view(&self) -> ExprV {
        expr_view(*self)
    }
}

/// Whether any reachable node of the model tree is a secret marker.
pub open spec fn spec_contains_secret(e: ExprV) -> bool
    decreases e,
{
    match e {
        ExprV::Secret(_) => true,
        ExprV::Int(_) => false,
        ExprV::Bool(_) => false,
        ExprV::Var(_) => false,
        ExprV::BinOp { left, right, .. } => spec_contains_secret(*left) || spec_contains_secret(
            *right,
        ),
        ExprV::UnaryOp { expr, .. } => spec_contains_secret(*expr),
        ExprV::If { cond, then_branch, else_branch } => spec_contains_secret(*cond)
            || spec_contains_secret(*then_branch) || spec_contains_secret(*else_branch),
        ExprV::Let { value, body, .. } => spec_contains_secret(*value) || spec_contains_secret(
            *body,
        ),
    }
}

impl Expr {
    /// True iff the expression contains a secret marker anywhere, found by
    /// depth-first traversal; literals and bare variable references are never
    /// secret markers themselves.
    pub fn contains_secret(&self) -> (found: bool)
        ensures
            found == spec_contains_secret(self@),
        decreases self,
    {
        match self {
            Expr::Secret(_) => true,
            Expr::Int(_) => false,
            Expr::Bool(_) => false,
            Expr::Var(_) => false,
            Expr::BinOp { left, right, .. } => left.contains_secret() || right.contains_secret(),
            Expr::UnaryOp { expr, .. } => expr.contains_secret(),
            Expr::If { cond, then_branch, else_branch } => cond.contains_secret()
                || then_branch.contains_secret() || else_branch.contains_secret(),
            Expr::Let { value, body, .. } => value.contains_secret() || body.contains_secret(),
        }
    }
}

} // verus!

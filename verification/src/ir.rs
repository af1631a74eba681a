//! The oblivious intermediate representation.
//!
//! Every operation in this form carries a constant-time operator tag, and
//! every non-literal node carries an explicit secrecy flag decided once at
//! construction time. Branching on a secret condition never appears here: it
//! is replaced by an oblivious selection that evaluates both arms.

use vstd::prelude::*;
use crate::ast::BinOp;
use crate::ast::UnaryOp;

verus! {

/// Constant-time binary operator tags.
#[derive(Debug, Clone, PartialEq)]
pub enum ObliBinOp {
    /// Constant-time addition
    CtAdd,
    /// Constant-time subtraction
    CtSub,
    /// Constant-time multiplication
    CtMul,
    /// Constant-time division (advisory: hardware may still leak timing)
    CtDiv,
    /// Constant-time modulo
    CtMod,
    /// Constant-time equality
    CtEq,
    /// Constant-time not-equal
    CtNe,
    /// Constant-time less-than
    CtLt,
    /// Constant-time less-or-equal
    CtLe,
    /// Constant-time greater-than
    CtGt,
    /// Constant-time greater-or-equal
    CtGe,
    /// Constant-time logical AND
    CtAnd,
    /// Constant-time logical OR
    CtOr,
}

/// The one-to-one mapping from a source operator to its constant-time tag.
pub open spec fn spec_ct_bin_op(op: BinOp) -> ObliBinOp {
    match op {
        BinOp::Add => ObliBinOp::CtAdd,
        BinOp::Sub => ObliBinOp::CtSub,
        BinOp::Mul => ObliBinOp::CtMul,
        BinOp::Div => ObliBinOp::CtDiv,
        BinOp::Mod => ObliBinOp::CtMod,
        BinOp::Eq => ObliBinOp::CtEq,
        BinOp::Ne => ObliBinOp::CtNe,
        BinOp::Lt => ObliBinOp::CtLt,
        BinOp::Le => ObliBinOp::CtLe,
        BinOp::Gt => ObliBinOp::CtGt,
        BinOp::Ge => ObliBinOp::CtGe,
        BinOp::And => ObliBinOp::CtAnd,
        BinOp::Or => ObliBinOp::CtOr,
    }
}

impl ObliBinOp {
    /// Translate a source operator into its constant-time equivalent.
    pub fn from(op: &BinOp) -> (r: ObliBinOp)
        ensures
            r == spec_ct_bin_op(*op),
    {
        match op {
            BinOp::Add => ObliBinOp::CtAdd,
            BinOp::Sub => ObliBinOp::CtSub,
            BinOp::Mul => ObliBinOp::CtMul,
            BinOp::Div => ObliBinOp::CtDiv,
            BinOp::Mod => ObliBinOp::CtMod,
            BinOp::Eq => ObliBinOp::CtEq,
            BinOp::Ne => ObliBinOp::CtNe,
            BinOp::Lt => ObliBinOp::CtLt,
            BinOp::Le => ObliBinOp::CtLe,
            BinOp::Gt => ObliBinOp::CtGt,
            BinOp::Ge => ObliBinOp::CtGe,
            BinOp::And => ObliBinOp::CtAnd,
            BinOp::Or => ObliBinOp::CtOr,
        }
    }
}

/// Constant-time unary operator tags.
#[derive(Debug, Clone, PartialEq)]
pub enum ObliUnaryOp {
    /// Constant-time negation
    CtNeg,
    /// Constant-time logical NOT
    CtNot,
}

/// The one-to-one mapping from a source unary operator to its constant-time
/// tag.
pub open spec fn spec_ct_unary_op(op: UnaryOp) -> ObliUnaryOp {
    match op {
        UnaryOp::Neg => ObliUnaryOp::CtNeg,
        UnaryOp::Not => ObliUnaryOp::CtNot,
    }
}

/// Oblivious expression: every operation is constant-time.
#[derive(Debug, PartialEq)]
pub enum ObliExpr {
    /// Public integer literal
    PubInt(i64),
    /// Public boolean literal
    PubBool(bool),
    /// Secret integer (value known at transform time but flagged)
    SecretInt(i64),
    /// Secret boolean
    SecretBool(bool),
    /// Variable reference with its secrecy flag
    Var { name: String, is_secret: bool },
    /// Constant-time binary operation
    BinOp { op: ObliBinOp, left: Box<ObliExpr>, right: Box<ObliExpr>, is_secret: bool },
    /// Constant-time unary operation
    UnaryOp { op: ObliUnaryOp, expr: Box<ObliExpr>, is_secret: bool },
    /// Oblivious selection: evaluates both values unconditionally, then
    /// selects without branching. Always secret.
    CtSelect { cond: Box<ObliExpr>, then_val: Box<ObliExpr>, else_val: Box<ObliExpr> },
    /// Ordinary if-then-else, permitted only when the condition is public
    PubIf { cond: Box<ObliExpr>, then_branch: Box<ObliExpr>, else_branch: Box<ObliExpr> },
    /// Let binding; the flag reflects the secrecy of the bound value
    Let { name: String, value: Box<ObliExpr>, body: Box<ObliExpr>, is_secret: bool },
}

/// Mathematical model of an oblivious expression.
pub enum ObliExprV {
    PubInt(int),
    PubBool(bool),
    SecretInt(int),
    SecretBool(bool),
    Var { name: Seq<char>, is_secret: bool },
    BinOp { op: ObliBinOp, left: Box<ObliExprV>, right: Box<ObliExprV>, is_secret: bool },
    UnaryOp { op: ObliUnaryOp, expr: Box<ObliExprV>, is_secret: bool },
    CtSelect { cond: Box<ObliExprV>, then_val: Box<ObliExprV>, else_val: Box<ObliExprV> },
    PubIf { cond: Box<ObliExprV>, then_branch: Box<ObliExprV>, else_branch: Box<ObliExprV> },
    Let { name: Seq<char>, value: Box<ObliExprV>, body: Box<ObliExprV>, is_secret: bool },
}

pub open spec fn obli_view(e: ObliExpr) -> ObliExprV
    decreases e,
{
    match e {
        ObliExpr::PubInt(n) => ObliExprV::PubInt(n as int),
        ObliExpr::PubBool(b) => ObliExprV::PubBool(b),
        ObliExpr::SecretInt(n) => ObliExprV::SecretInt(n as int),
        ObliExpr::SecretBool(b) => ObliExprV::SecretBool(b),
        ObliExpr::Var { name, is_secret } => ObliExprV::Var { name: name@, is_secret },
        ObliExpr::BinOp { op, left, right, is_secret } => ObliExprV::BinOp {
            op,
            left: Box::new(obli_view(*left)),
            right: Box::new(obli_view(*right)),
            is_secret,
        },
        ObliExpr::UnaryOp { op, expr, is_secret } => ObliExprV::UnaryOp {
            op,
            expr: Box::new(obli_view(*expr)),
            is_secret,
        },
        ObliExpr::CtSelect { cond, then_val, else_val } => ObliExprV::CtSelect {
            cond: Box::new(obli_view(*cond)),
            then_val: Box::new(obli_view(*then_val)),
            else_val: Box::new(obli_view(*else_val)),
        },
        ObliExpr::PubIf { cond, then_branch, else_branch } => ObliExprV::PubIf {
            cond: Box::new(obli_view(*cond)),
            then_branch: Box::new(obli_view(*then_branch)),
            else_branch: Box::new(obli_view(*else_branch)),
        },
        ObliExpr::Let { name, value, body, is_secret } => ObliExprV::Let {
            name: name@,
            value: Box::new(obli_view(*value)),
            body: Box::new(obli_view(*body)),
            is_secret,
        },
    }
}

impl View for ObliExpr {
    type V = ObliExprV;

    open spec fn view(&self) -> ObliExprV {
        obli_view(*self)
    }
}

/// Whether the value of this node depends on secret data. Literal nodes are
/// fixed by their variant, flagged nodes answer with their stored flag, an
/// oblivious selection is unconditionally secret, and a public conditional is
/// secret exactly when one of its branches is.
pub open spec fn spec_is_secret(e: ObliExprV) -> bool
    decreases e,
{
    match e {
        ObliExprV::PubInt(_) => false,
        ObliExprV::PubBool(_) => false,
        ObliExprV::SecretInt(_) => true,
        ObliExprV::SecretBool(_) => true,
        ObliExprV::Var { is_secret, .. } => is_secret,
        ObliExprV::BinOp { is_secret, .. } => is_secret,
        ObliExprV::UnaryOp { is_secret, .. } => is_secret,
        ObliExprV::CtSelect { .. } => true,
        ObliExprV::PubIf { then_branch, else_branch, .. } => spec_is_secret(*then_branch)
            || spec_is_secret(*else_branch),
        ObliExprV::Let { is_secret, .. } => is_secret,
    }
}

impl ObliExpr {
    /// Report whether this expression depends on secret data.
    pub fn is_secret(&self) -> (secret: bool)
        ensures
            secret == spec_is_secret(self@),
        decreases self,
    {
        match self {
            ObliExpr::PubInt(_) => false,
            ObliExpr::PubBool(_) => false,
            ObliExpr::SecretInt(_) => true,
            ObliExpr::SecretBool(_) => true,
            ObliExpr::Var { is_secret, .. } => *is_secret,
            ObliExpr::BinOp { is_secret, .. } => *is_secret,
            ObliExpr::UnaryOp { is_secret, .. } => *is_secret,
            ObliExpr::CtSelect { .. } => true,
            ObliExpr::PubIf { then_branch, else_branch, .. } => then_branch.is_secret()
                || else_branch.is_secret(),
            ObliExpr::Let { is_secret, .. } => *is_secret,
        }
    }
}

} // verus!

//! The secrecy-propagation and branch-elimination transformation.
//!
//! This module turns a source expression into its oblivious form. Per
//! variable and per sub-expression it tracks whether the value is tainted by
//! secret data; the key rewrite replaces every conditional whose condition is
//! secret by a constant-time selection that evaluates both arms.

use vstd::prelude::*;
use crate::ast::Expr;
use crate::ast::ExprV;
use crate::ast::UnaryOp;
use crate::ast::expr_view;
use crate::ast::spec_contains_secret;
use crate::ir::ObliBinOp;
use crate::ir::ObliExpr;
use crate::ir::ObliExprV;
use crate::ir::ObliUnaryOp;
use crate::ir::spec_ct_bin_op;
use crate::ir::spec_ct_unary_op;
use crate::ir::spec_is_secret;

verus! {

/// Force a transformed node to read as secret.
///
/// Only node shapes that carry their own secrecy — literals, variable
/// references and operations — are converted; a public conditional, a let
/// binding or a selection is returned unchanged, so a secret marker around an
/// expression of such a shape does not take effect. This mirrors the flat
/// behaviour of the transformation and is a documented limitation rather than
/// an oversight.
pub open spec fn spec_mark_secret(e: ObliExprV) -> ObliExprV {
    match e {
        ObliExprV::PubInt(n) => ObliExprV::SecretInt(n),
        ObliExprV::PubBool(b) => ObliExprV::SecretBool(b),
        ObliExprV::Var { name, .. } => ObliExprV::Var { name, is_secret: true },
        ObliExprV::BinOp { op, left, right, .. } => ObliExprV::BinOp {
            op,
            left,
            right,
            is_secret: true,
        },
        ObliExprV::UnaryOp { op, expr, .. } => ObliExprV::UnaryOp { op, expr, is_secret: true },
        other => other,
    }
}

/// The transformation itself, over the mathematical model: given a source
/// expression and the set of variable names currently known to be secret, it
/// yields the oblivious expression together with the updated name set.
///
/// The name set grows monotonically and is threaded through the traversal in
/// evaluation order; it is a single flat set, not a stack of lexical scopes.
pub open spec fn spec_transform(e: ExprV, secret: Set<Seq<char>>) -> (ObliExprV, Set<Seq<char>>)
    decreases e,
{
    match e {
        ExprV::Int(n) => (ObliExprV::PubInt(n), secret),
        ExprV::Bool(b) => (ObliExprV::PubBool(b), secret),
        ExprV::Var(name) => (ObliExprV::Var { name, is_secret: secret.contains(name) }, secret),
        ExprV::Secret(inner) => match *inner {
            ExprV::Int(n) => (ObliExprV::SecretInt(n), secret),
            ExprV::Bool(b) => (ObliExprV::SecretBool(b), secret),
            other => {
                let (t, s1) = spec_transform(other, secret);
                (spec_mark_secret(t), s1)
            },
        },
        ExprV::BinOp { op, left, right } => {
            let (l, s1) = spec_transform(*left, secret);
            let (r, s2) = spec_transform(*right, s1);
            (
                ObliExprV::BinOp {
                    op: spec_ct_bin_op(op),
                    left: Box::new(l),
                    right: Box::new(r),
                    is_secret: spec_is_secret(l) || spec_is_secret(r),
                },
                s2,
            )
        },
        ExprV::UnaryOp { op, expr } => {
            let (inner, s1) = spec_transform(*expr, secret);
            (
                ObliExprV::UnaryOp {
                    op: spec_ct_unary_op(op),
                    expr: Box::new(inner),
                    is_secret: spec_is_secret(inner),
                },
                s1,
            )
        },
        ExprV::If { cond, then_branch, else_branch } => {
            let (c, s1) = spec_transform(*cond, secret);
            let (t, s2) = spec_transform(*then_branch, s1);
            let (el, s3) = spec_transform(*else_branch, s2);
            if spec_is_secret(c) {
                (
                    ObliExprV::CtSelect {
                        cond: Box::new(c),
                        then_val: Box::new(t),
                        else_val: Box::new(el),
                    },
                    s3,
                )
            } else {
                (
                    ObliExprV::PubIf {
                        cond: Box::new(c),
                        then_branch: Box::new(t),
                        else_branch: Box::new(el),
                    },
                    s3,
                )
            }
        },
        ExprV::Let { name, value, body } => {
            let (v, s1) = spec_transform(*value, secret);
            let s2 = if spec_is_secret(v) {
                s1.insert(name)
            } else {
                s1
            };
            let (b, s3) = spec_transform(*body, s2);
            (
                ObliExprV::Let {
                    name,
                    value: Box::new(v),
                    body: Box::new(b),
                    is_secret: spec_is_secret(v),
                },
                s3,
            )
        },
    }
}

/// Tracker of which variable names currently hold secret-derived values.
/// Membership is monotonic within one transformation run: once a name is
/// marked secret it is never removed.
struct TransformCtx {
    secret_vars: Vec<String>,
}

impl TransformCtx {
    /// The set of names tracked as secret.
    spec fn secret_set(&self) -> Set<Seq<char>> {
        self.secret_vars@.map_values(|s: String| s@).to_set()
    }

    fn new() -> (ctx: TransformCtx)
        ensures
            ctx.secret_set() == Set::<Seq<char>>::empty(),
    {
        let ctx = TransformCtx { secret_vars: Vec::new() };
        proof {
            assert(ctx.secret_set() =~= Set::<Seq<char>>::empty());
        }
        ctx
    }

    /// Add a name to the tracked set (idempotent in effect: the set view
    /// absorbs duplicates).
    fn mark_secret(&mut self, name: &String)
        ensures
            final(self).secret_set() == old(self).secret_set().insert(name@),
    {
        self.secret_vars.push(name.clone());
        proof {
            let old_names = old(self).secret_vars@.map_values(|s: String| s@);
            let new_names = self.secret_vars@.map_values(|s: String| s@);
            assert(new_names =~= old_names.push(name@));
            assert forall|x: Seq<char>| new_names.contains(x) implies old_names.contains(x) || x
                == name@ by {
                let i = choose|i: int| 0 <= i < new_names.len() && new_names[i] == x;
                if i < old_names.len() {
                    assert(old_names[i] == x);
                }
            }
            assert forall|x: Seq<char>| old_names.contains(x) implies new_names.contains(x) by {
                let i = choose|i: int| 0 <= i < old_names.len() && old_names[i] == x;
                assert(new_names[i] == x);
            }
            assert(new_names.contains(name@)) by {
                assert(new_names[old_names.len() as int] == name@);
            }
            assert(final(self).secret_set() =~= old(self).secret_set().insert(name@));
        }
    }

    /// Set-membership query; false for unknown names.
    fn is_secret(&self, name: &String) -> (r: bool)
        ensures
            r == self.secret_set().contains(name@),
    {
        let ghost names = self.secret_vars@.map_values(|s: String| s@);
        let mut i: usize = 0;
        while i < self.secret_vars.len()
            invariant
                i <= self.secret_vars.len(),
                names == self.secret_vars@.map_values(|s: String| s@),
                forall|j: int| 0 <= j < i ==> names[j] != name@,
            decreases self.secret_vars.len() - i,
        {
            if self.secret_vars[i].eq(name) {
                assert(names[i as int] == name@);
                assert(names.contains(name@));
                return true;
            }
            i += 1;
        }
        proof {
            if self.secret_set().contains(name@) {
                let j = choose|j: int| 0 <= j < names.len() && names[j] == name@;
                assert(names[j] != name@);
            }
        }
        false
    }
}

/// Transform a source expression into oblivious form. Total: every
/// well-formed source expression has an oblivious image, pinned down
/// exactly by `spec_transform` starting from an empty secret-name set.
/// The output is a function of the input tree alone, so repeated invocations
/// on the same tree yield structurally identical output.
pub fn to_oblivious(expr: &Expr) -> (r: ObliExpr)
    ensures
        r@ == spec_transform(expr@, Set::empty()).0,
{
    let mut ctx = TransformCtx::new();
    transform_expr(expr, &mut ctx)
}

fn transform_expr(expr: &Expr, ctx: &mut TransformCtx) -> (r: ObliExpr)
    ensures
        r@ == spec_transform(expr@, old(ctx).secret_set()).0,
        final(ctx).secret_set() == spec_transform(expr@, old(ctx).secret_set()).1,
    decreases expr,
{
    proof {
        reveal_with_fuel(expr_view, 2);
    }
    match expr {
        Expr::Int(n) => ObliExpr::PubInt(*n),
        Expr::Bool(b) => ObliExpr::PubBool(*b),
        Expr::Var(name) => ObliExpr::Var { name: name.clone(), is_secret: ctx.is_secret(name) },
        Expr::Secret(inner) => match &**inner {
            Expr::Int(n) => ObliExpr::SecretInt(*n),
            Expr::Bool(b) => ObliExpr::SecretBool(*b),
            _ => {
                let transformed = transform_expr(inner, ctx);
                mark_as_secret(transformed)
            },
        },
        Expr::BinOp { op, left, right } => {
            let left_obli = transform_expr(left, ctx);
            let right_obli = transform_expr(right, ctx);
            let is_secret = left_obli.is_secret() || right_obli.is_secret();
            ObliExpr::BinOp {
                op: ObliBinOp::from(op),
                left: Box::new(left_obli),
                right: Box::new(right_obli),
                is_secret,
            }
        },
        Expr::UnaryOp { op, expr: inner } => {
            let inner_obli = transform_expr(inner, ctx);
            let is_secret = inner_obli.is_secret();
            ObliExpr::UnaryOp {
                op: match op {
                    UnaryOp::Neg => ObliUnaryOp::CtNeg,
                    UnaryOp::Not => ObliUnaryOp::CtNot,
                },
                expr: Box::new(inner_obli),
                is_secret,
            }
        },
        Expr::If { cond, then_branch, else_branch } => {
            let cond_obli = transform_expr(cond, ctx);
            let then_obli = transform_expr(then_branch, ctx);
            let else_obli = transform_expr(else_branch, ctx);
            if cond_obli.is_secret() {
                ObliExpr::CtSelect {
                    cond: Box::new(cond_obli),
                    then_val: Box::new(then_obli),
                    else_val: Box::new(else_obli),
                }
            } else {
                ObliExpr::PubIf {
                    cond: Box::new(cond_obli),
                    then_branch: Box::new(then_obli),
                    else_branch: Box::new(else_obli),
                }
            }
        },
        Expr::Let { name, value, body } => {
            let value_obli = transform_expr(value, ctx);
            let is_secret = value_obli.is_secret();
            if is_secret {
                ctx.mark_secret(name);
            }
            let body_obli = transform_expr(body, ctx);
            ObliExpr::Let {
                name: name.clone(),
                value: Box::new(value_obli),
                body: Box::new(body_obli),
                is_secret,
            }
        },
    }
}

/// Force an already-transformed node to read as secret; see
/// [`spec_mark_secret`] for the shapes this deliberately leaves unchanged.
fn mark_as_secret(expr: ObliExpr) -> (r: ObliExpr)
    ensures
        r@ == spec_mark_secret(expr@),
{
    match expr {
        ObliExpr::PubInt(n) => ObliExpr::SecretInt(n),
        ObliExpr::PubBool(b) => ObliExpr::SecretBool(b),
        ObliExpr::Var { name, .. } => ObliExpr::Var { name, is_secret: true },
        ObliExpr::BinOp { op, left, right, .. } => ObliExpr::BinOp {
            op,
            left,
            right,
            is_secret: true,
        },
        ObliExpr::UnaryOp { op, expr, .. } => ObliExpr::UnaryOp { op, expr, is_secret: true },
        other => other,
    }
}

/// Every node of the tree, not just the root, reports itself public.
pub open spec fn all_public(e: ObliExprV) -> bool
    decreases e,
{
    match e {
        ObliExprV::PubInt(_) => true,
        ObliExprV::PubBool(_) => true,
        ObliExprV::SecretInt(_) => false,
        ObliExprV::SecretBool(_) => false,
        ObliExprV::Var { is_secret, .. } => !is_secret,
        ObliExprV::BinOp { left, right, is_secret, .. } => !is_secret && all_public(*left)
            && all_public(*right),
        ObliExprV::UnaryOp { expr, is_secret, .. } => !is_secret && all_public(*expr),
        ObliExprV::CtSelect { .. } => false,
        ObliExprV::PubIf { cond, then_branch, else_branch } => all_public(*cond) && all_public(
            *then_branch,
        ) && all_public(*else_branch),
        ObliExprV::Let { value, body, is_secret, .. } => !is_secret && all_public(*value)
            && all_public(*body),
    }
}

/// A tree that is public in every node reports itself public at the root.
pub proof fn lemma_all_public_not_secret(e: ObliExprV)
    ensures
        all_public(e) ==> !spec_is_secret(e),
    decreases e,
{
    match e {
        ObliExprV::PubIf { cond, then_branch, else_branch } => {
            lemma_all_public_not_secret(*then_branch);
            lemma_all_public_not_secret(*else_branch);
        },
        _ => {},
    }
}

proof fn lemma_transform_public_helper(e: ExprV)
    requires
        !spec_contains_secret(e),
    ensures
        all_public(spec_transform(e, Set::empty()).0),
        spec_transform(e, Set::empty()).1 == Set::<Seq<char>>::empty(),
    decreases e,
{
    let s = Set::<Seq<char>>::empty();
    match e {
        ExprV::Int(_) => {},
        ExprV::Bool(_) => {},
        ExprV::Var(name) => {
            assert(!s.contains(name));
        },
        ExprV::Secret(_) => {},
        ExprV::BinOp { left, right, .. } => {
            lemma_transform_public_helper(*left);
            lemma_transform_public_helper(*right);
            lemma_all_public_not_secret(spec_transform(*left, s).0);
            lemma_all_public_not_secret(spec_transform(*right, s).0);
        },
        ExprV::UnaryOp { expr, .. } => {
            lemma_transform_public_helper(*expr);
            lemma_all_public_not_secret(spec_transform(*expr, s).0);
        },
        ExprV::If { cond, then_branch, else_branch } => {
            lemma_transform_public_helper(*cond);
            lemma_transform_public_helper(*then_branch);
            lemma_transform_public_helper(*else_branch);
            lemma_all_public_not_secret(spec_transform(*cond, s).0);
        },
        ExprV::Let { value, body, .. } => {
            lemma_transform_public_helper(*value);
            lemma_all_public_not_secret(spec_transform(*value, s).0);
            lemma_transform_public_helper(*body);
        },
    }
}

/// Law: a source tree containing no secret marker anywhere transforms to a
/// tree every node of which reports itself public.
pub proof fn lemma_no_secret_transforms_all_public(e: ExprV)
    requires
        !spec_contains_secret(e),
    ensures
        all_public(spec_transform(e, Set::empty()).0),
{
    lemma_transform_public_helper(e);
}

/// Law: the transformation is deterministic. `to_oblivious` pins its result
/// to `spec_transform` of the input tree alone, so any two invocations on the
/// same source tree yield structurally identical output.
pub proof fn lemma_transform_deterministic(e: ExprV, r1: ObliExprV, r2: ObliExprV)
    requires
        r1 == spec_transform(e, Set::empty()).0,
        r2 == spec_transform(e, Set::empty()).0,
    ensures
        r1 == r2,
{
}

/// Law: a secret marker directly wrapping an integer literal folds to the
/// secret-integer node, whatever names are currently secret.
pub proof fn lemma_secret_int_literal_folds(n: int, s: Set<Seq<char>>)
    ensures
        spec_transform(ExprV::Secret(Box::new(ExprV::Int(n))), s) == (ObliExprV::SecretInt(n), s),
{
}

/// Law: a secret marker directly wrapping a boolean literal folds to the
/// secret-boolean node, whatever names are currently secret.
pub proof fn lemma_secret_bool_literal_folds(b: bool, s: Set<Seq<char>>)
    ensures
        spec_transform(ExprV::Secret(Box::new(ExprV::Bool(b))), s) == (
            ObliExprV::SecretBool(b),
            s,
        ),
{
}

/// Law: a conditional whose condition transforms to a secret value becomes an
/// oblivious selection over the transformed branches, never a public
/// conditional.
pub proof fn lemma_secret_condition_becomes_select(
    cond: ExprV,
    then_branch: ExprV,
    else_branch: ExprV,
    s: Set<Seq<char>>,
)
    requires
        spec_is_secret(spec_transform(cond, s).0),
    ensures
        ({
            let (c, s1) = spec_transform(cond, s);
            let (t, s2) = spec_transform(then_branch, s1);
            let (el, s3) = spec_transform(else_branch, s2);
            spec_transform(
                ExprV::If {
                    cond: Box::new(cond),
                    then_branch: Box::new(then_branch),
                    else_branch: Box::new(else_branch),
                },
                s,
            ) == (
                ObliExprV::CtSelect {
                    cond: Box::new(c),
                    then_val: Box::new(t),
                    else_val: Box::new(el),
                },
                s3,
            )
        }),
{
}

/// Law: a conditional whose condition transforms to a public value stays an
/// ordinary conditional, and its secrecy is the disjunction of its two
/// branches' secrecy (the public condition contributes no taint).
pub proof fn lemma_public_condition_stays_conditional(
    cond: ExprV,
    then_branch: ExprV,
    else_branch: ExprV,
    s: Set<Seq<char>>,
)
    requires
        !spec_is_secret(spec_transform(cond, s).0),
    ensures
        ({
            let (c, s1) = spec_transform(cond, s);
            let (t, s2) = spec_transform(then_branch, s1);
            let (el, s3) = spec_transform(else_branch, s2);
            let r = spec_transform(
                ExprV::If {
                    cond: Box::new(cond),
                    then_branch: Box::new(then_branch),
                    else_branch: Box::new(else_branch),
                },
                s,
            );
            r == (
                ObliExprV::PubIf {
                    cond: Box::new(c),
                    then_branch: Box::new(t),
                    else_branch: Box::new(el),
                },
                s3,
            ) && spec_is_secret(r.0) == (spec_is_secret(t) || spec_is_secret(el))
        }),
{
}

} // verus!

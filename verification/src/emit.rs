//! Rendering of the oblivious form as target-language source text, and the
//! textual diagnostics for the pipeline's failures.
//!
//! Literal nodes render as constants, variables as identifiers, operations as
//! calls of the correspondingly-named constant-time primitives. An oblivious
//! selection renders as a call of `ct_select`, whose arguments are all
//! evaluated before the selection happens; only a public conditional renders
//! as an ordinary branch.

use vstd::prelude::*;
use vstd::string::StringExecFns;
use crate::ir::ObliBinOp;
use crate::ir::ObliExpr;
use crate::ir::ObliExprV;
use crate::ir::ObliUnaryOp;
use crate::lexer::LexError;
use crate::lexer::LexErrV;
use crate::lexer::Token;
use crate::lexer::TokenV;
use crate::parser::ParseError;
use crate::parser::ParseErrV;

verus! {

/// Relies on String::push: appends the given character to the string.
#[verifier::external_body]
fn push_char(s: &mut String, c: char)
    ensures
        final(s)@ == old(s)@.push(c),
{
    s.push(c);
}

pub open spec fn digit_char_of(d: int) -> char {
    if d == 0 {
        '0'
    } else if d == 1 {
        '1'
    } else if d == 2 {
        '2'
    } else if d == 3 {
        '3'
    } else if d == 4 {
        '4'
    } else if d == 5 {
        '5'
    } else if d == 6 {
        '6'
    } else if d == 7 {
        '7'
    } else if d == 8 {
        '8'
    } else {
        '9'
    }
}

/// Decimal rendering of a non-negative number, most significant digit first.
pub open spec fn dec_seq(n: int) -> Seq<char>
    decreases n,
        when n >= 0
{
    if n < 10 {
        seq![digit_char_of(n)]
    } else {
        proof {
            assert(n / 10 < n) by (nonlinear_arith)
                requires
                    n >= 10,
            ;
        }
        dec_seq(n / 10).push(digit_char_of(n % 10))
    }
}

/// Decimal rendering of an integer, with a leading minus sign if negative.
pub open spec fn dec_int_seq(n: int) -> Seq<char> {
    if n < 0 {
        seq!['-'] + dec_seq(-n)
    } else {
        dec_seq(n)
    }
}

fn digit_char_exec(d: u64) -> (c: char)
    requires
        d < 10,
    ensures
        c == digit_char_of(d as int),
{
    if d == 0 {
        '0'
    } else if d == 1 {
        '1'
    } else if d == 2 {
        '2'
    } else if d == 3 {
        '3'
    } else if d == 4 {
        '4'
    } else if d == 5 {
        '5'
    } else if d == 6 {
        '6'
    } else if d == 7 {
        '7'
    } else if d == 8 {
        '8'
    } else {
        '9'
    }
}

fn push_dec_u64(out: &mut String, n: u64)
    ensures
        final(out)@ == old(out)@ + dec_seq(n as int),
    decreases n,
{
    if n < 10 {
        push_char(out, digit_char_exec(n));
        proof {
            assert(final(out)@ =~= old(out)@ + dec_seq(n as int));
        }
    } else {
        push_dec_u64(out, n / 10);
        push_char(out, digit_char_exec(n % 10));
        proof {
            assert(final(out)@ =~= old(out)@ + dec_seq(n as int));
        }
    }
}

fn push_dec_i64(out: &mut String, n: i64)
    ensures
        final(out)@ == old(out)@ + dec_int_seq(n as int),
{
    if n >= 0 {
        push_dec_u64(out, n as u64);
    } else {
        push_char(out, '-');
        let m: u64 = ((-(n + 1)) as u64) + 1;
        proof {
            assert(m as int == -(n as int));
        }
        push_dec_u64(out, m);
        proof {
            assert(final(out)@ =~= old(out)@ + dec_int_seq(n as int));
        }
    }
}

/// The names of the constant-time binary primitives.
pub open spec fn ct_bin_name(op: ObliBinOp) -> Seq<char> {
    match op {
        ObliBinOp::CtAdd => "ct_add"@,
        ObliBinOp::CtSub => "ct_sub"@,
        ObliBinOp::CtMul => "ct_mul"@,
        ObliBinOp::CtDiv => "ct_div"@,
        ObliBinOp::CtMod => "ct_mod"@,
        ObliBinOp::CtEq => "ct_eq"@,
        ObliBinOp::CtNe => "ct_ne"@,
        ObliBinOp::CtLt => "ct_lt"@,
        ObliBinOp::CtLe => "ct_le"@,
        ObliBinOp::CtGt => "ct_gt"@,
        ObliBinOp::CtGe => "ct_ge"@,
        ObliBinOp::CtAnd => "ct_and"@,
        ObliBinOp::CtOr => "ct_or"@,
    }
}

/// The names of the constant-time unary primitives.
pub open spec fn ct_unary_name(op: ObliUnaryOp) -> Seq<char> {
    match op {
        ObliUnaryOp::CtNeg => "ct_neg"@,
        ObliUnaryOp::CtNot => "ct_not"@,
    }
}

pub open spec fn bool_seq(b: bool) -> Seq<char> {
    if b {
        "true"@
    } else {
        "false"@
    }
}

/// The rendering of an oblivious expression, node by node.
pub open spec fn spec_emit(e: ObliExprV) -> Seq<char>
    decreases e,
{
    match e {
        ObliExprV::PubInt(n) => dec_int_seq(n),
        ObliExprV::PubBool(b) => bool_seq(b),
        ObliExprV::SecretInt(n) => "ct_secret("@ + dec_int_seq(n) + ")"@,
        ObliExprV::SecretBool(b) => "ct_secret("@ + bool_seq(b) + ")"@,
        ObliExprV::Var { name, .. } => name,
        ObliExprV::BinOp { op, left, right, .. } => ct_bin_name(op) + "("@ + spec_emit(*left)
            + ", "@ + spec_emit(*right) + ")"@,
        ObliExprV::UnaryOp { op, expr, .. } => ct_unary_name(op) + "("@ + spec_emit(*expr) + ")"@,
        ObliExprV::CtSelect { cond, then_val, else_val } => "ct_select("@ + spec_emit(*cond)
            + ", "@ + spec_emit(*then_val) + ", "@ + spec_emit(*else_val) + ")"@,
        ObliExprV::PubIf { cond, then_branch, else_branch } => "if "@ + spec_emit(*cond) + " { "@
            + spec_emit(*then_branch) + " } else { "@ + spec_emit(*else_branch) + " }"@,
        ObliExprV::Let { name, value, body, .. } => "{ let "@ + name + " = "@ + spec_emit(*value)
            + "; "@ + spec_emit(*body) + " }"@,
    }
}

fn emit_into(e: &ObliExpr, out: &mut String)
    ensures
        final(out)@ == old(out)@ + spec_emit(e@),
    decreases e,
{
    match e {
        ObliExpr::PubInt(n) => {
            push_dec_i64(out, *n);
        },
        ObliExpr::PubBool(b) => {
            if *b {
                out.append("true");
            } else {
                out.append("false");
            }
        },
        ObliExpr::SecretInt(n) => {
            out.append("ct_secret(");
            push_dec_i64(out, *n);
            out.append(")");
            proof {
                assert(final(out)@ =~= old(out)@ + spec_emit(e@));
            }
        },
        ObliExpr::SecretBool(b) => {
            out.append("ct_secret(");
            if *b {
                out.append("true");
            } else {
                out.append("false");
            }
            out.append(")");
            proof {
                assert(final(out)@ =~= old(out)@ + spec_emit(e@));
            }
        },
        ObliExpr::Var { name, .. } => {
            out.append(name.as_str());
        },
        ObliExpr::BinOp { op, left, right, .. } => {
            let name = ct_bin_name_exec(op);
            out.append(name.as_str());
            out.append("(");
            emit_into(left, out);
            out.append(", ");
            emit_into(right, out);
            out.append(")");
            proof {
                assert(final(out)@ =~= old(out)@ + spec_emit(e@));
            }
        },
        ObliExpr::UnaryOp { op, expr, .. } => {
            let name = ct_unary_name_exec(op);
            out.append(name.as_str());
            out.append("(");
            emit_into(expr, out);
            out.append(")");
            proof {
                assert(final(out)@ =~= old(out)@ + spec_emit(e@));
            }
        },
        ObliExpr::CtSelect { cond, then_val, else_val } => {
            out.append("ct_select(");
            emit_into(cond, out);
            out.append(", ");
            emit_into(then_val, out);
            out.append(", ");
            emit_into(else_val, out);
            out.append(")");
            proof {
                assert(final(out)@ =~= old(out)@ + spec_emit(e@));
            }
        },
        ObliExpr::PubIf { cond, then_branch, else_branch } => {
            out.append("if ");
            emit_into(cond, out);
            out.append(" { ");
            emit_into(then_branch, out);
            out.append(" } else { ");
            emit_into(else_branch, out);
            out.append(" }");
            proof {
                assert(final(out)@ =~= old(out)@ + spec_emit(e@));
            }
        },
        ObliExpr::Let { name, value, body, .. } => {
            out.append("{ let ");
            out.append(name.as_str());
            out.append(" = ");
            emit_into(value, out);
            out.append("; ");
            emit_into(body, out);
            out.append(" }");
            proof {
                assert(final(out)@ =~= old(out)@ + spec_emit(e@));
            }
        },
    }
}

fn ct_bin_name_exec(op: &ObliBinOp) -> (r: String)
    ensures
        r@ == ct_bin_name(*op),
{
    match op {
        ObliBinOp::CtAdd => String::from_str("ct_add"),
        ObliBinOp::CtSub => String::from_str("ct_sub"),
        ObliBinOp::CtMul => String::from_str("ct_mul"),
        ObliBinOp::CtDiv => String::from_str("ct_div"),
        ObliBinOp::CtMod => String::from_str("ct_mod"),
        ObliBinOp::CtEq => String::from_str("ct_eq"),
        ObliBinOp::CtNe => String::from_str("ct_ne"),
        ObliBinOp::CtLt => String::from_str("ct_lt"),
        ObliBinOp::CtLe => String::from_str("ct_le"),
        ObliBinOp::CtGt => String::from_str("ct_gt"),
        ObliBinOp::CtGe => String::from_str("ct_ge"),
        ObliBinOp::CtAnd => String::from_str("ct_and"),
        ObliBinOp::CtOr => String::from_str("ct_or"),
    }
}

fn ct_unary_name_exec(op: &ObliUnaryOp) -> (r: String)
    ensures
        r@ == ct_unary_name(*op),
{
    match op {
        ObliUnaryOp::CtNeg => String::from_str("ct_neg"),
        ObliUnaryOp::CtNot => String::from_str("ct_not"),
    }
}

/// Render an oblivious expression as constant-time target source text.
pub fn emit_rust(e: &ObliExpr) -> (r: String)
    ensures
        r@ == spec_emit(e@),
{
    let mut out = String::new();
    emit_into(e, &mut out);
    proof {
        assert(out@ =~= spec_emit(e@));
    }
    out
}

/// The diagnostic text for a lexical failure.
pub open spec fn lex_error_message(e: LexErrV) -> Seq<char> {
    match e {
        LexErrV::UnexpectedChar(c, p) => "unexpected character: '"@ + seq![c] + "' at position "@
            + dec_int_seq(p),
        LexErrV::InvalidNumber(p) => "invalid number at position "@ + dec_int_seq(p),
    }
}

impl LexError {
    /// The failure as a one-line diagnostic.
    pub fn message(&self) -> (r: String)
        ensures
            r@ == lex_error_message(self@),
    {
        match self {
            LexError::UnexpectedChar(c, p) => {
                let mut out = String::from_str("unexpected character: '");
                push_char(&mut out, *c);
                out.append("' at position ");
                push_dec_u64(&mut out, *p as u64);
                proof {
                    assert(out@ =~= lex_error_message(self@));
                }
                out
            },
            LexError::InvalidNumber(p) => {
                let mut out = String::from_str("invalid number at position ");
                push_dec_u64(&mut out, *p as u64);
                proof {
                    assert(out@ =~= lex_error_message(self@));
                }
                out
            },
        }
    }
}

/// The rendering of a token inside a diagnostic.
pub open spec fn token_debug(t: TokenV) -> Seq<char> {
    match t {
        TokenV::Int(n) => "Int("@ + dec_int_seq(n) + ")"@,
        TokenV::Bool(b) => "Bool("@ + bool_seq(b) + ")"@,
        TokenV::Ident(name) => "Ident(\""@ + name + "\")"@,
        TokenV::Let => "Let"@,
        TokenV::If => "If"@,
        TokenV::Then => "Then"@,
        TokenV::Else => "Else"@,
        TokenV::Secret => "Secret"@,
        TokenV::Plus => "Plus"@,
        TokenV::Minus => "Minus"@,
        TokenV::Star => "Star"@,
        TokenV::Slash => "Slash"@,
        TokenV::Percent => "Percent"@,
        TokenV::Eq => "Eq"@,
        TokenV::Ne => "Ne"@,
        TokenV::Lt => "Lt"@,
        TokenV::Le => "Le"@,
        TokenV::Gt => "Gt"@,
        TokenV::Ge => "Ge"@,
        TokenV::And => "And"@,
        TokenV::Or => "Or"@,
        TokenV::Not => "Not"@,
        TokenV::LParen => "LParen"@,
        TokenV::RParen => "RParen"@,
        TokenV::Assign => "Assign"@,
        TokenV::Eof => "Eof"@,
    }
}

fn token_debug_exec(t: &Token) -> (r: String)
    ensures
        r@ == token_debug(t@),
{
    match t {
        Token::Int(n) => {
            let mut out = String::from_str("Int(");
            push_dec_i64(&mut out, *n);
            out.append(")");
            proof {
                assert(out@ =~= token_debug(t@));
            }
            out
        },
        Token::Bool(b) => {
            let mut out = String::from_str("Bool(");
            if *b {
                out.append("true");
            } else {
                out.append("false");
            }
            out.append(")");
            proof {
                assert(out@ =~= token_debug(t@));
            }
            out
        },
        Token::Ident(name) => {
            let mut out = String::from_str("Ident(\"");
            out.append(name.as_str());
            out.append("\")");
            proof {
                assert(out@ =~= token_debug(t@));
            }
            out
        },
        Token::Let => String::from_str("Let"),
        Token::If => String::from_str("If"),
        Token::Then => String::from_str("Then"),
        Token::Else => String::from_str("Else"),
        Token::Secret => String::from_str("Secret"),
        Token::Plus => String::from_str("Plus"),
        Token::Minus => String::from_str("Minus"),
        Token::Star => String::from_str("Star"),
        Token::Slash => String::from_str("Slash"),
        Token::Percent => String::from_str("Percent"),
        Token::Eq => String::from_str("Eq"),
        Token::Ne => String::from_str("Ne"),
        Token::Lt => String::from_str("Lt"),
        Token::Le => String::from_str("Le"),
        Token::Gt => String::from_str("Gt"),
        Token::Ge => String::from_str("Ge"),
        Token::And => String::from_str("And"),
        Token::Or => String::from_str("Or"),
        Token::Not => String::from_str("Not"),
        Token::LParen => String::from_str("LParen"),
        Token::RParen => String::from_str("RParen"),
        Token::Assign => String::from_str("Assign"),
        Token::Eof => String::from_str("Eof"),
    }
}

/// The diagnostic text for a syntactic failure.
pub open spec fn parse_error_message(e: ParseErrV) -> Seq<char> {
    match e {
        ParseErrV::UnexpectedToken(t, what) => "unexpected token: "@ + token_debug(t)
            + ", expected "@ + what,
        ParseErrV::UnexpectedEof => "unexpected end of input"@,
    }
}

impl ParseError {
    /// The failure as a one-line diagnostic.
    pub fn message(&self) -> (r: String)
        ensures
            r@ == parse_error_message(self@),
    {
        match self {
            ParseError::UnexpectedToken(t, what) => {
                let mut out = String::from_str("unexpected token: ");
                let td = token_debug_exec(t);
                out.append(td.as_str());
                out.append(", expected ");
                out.append(what);
                proof {
                    assert(out@ =~= parse_error_message(self@));
                }
                out
            },
            ParseError::UnexpectedEof => String::from_str("unexpected end of input"),
        }
    }
}

} // verus!

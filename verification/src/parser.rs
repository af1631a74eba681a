//! The recursive-descent parser for the source language.
//!
//! Grammar, lowest precedence first:
//! ```text
//! expr     -> let_expr | if_expr | or_expr
//! let_expr -> "let" IDENT "=" expr expr
//! if_expr  -> "if" expr "then" expr "else" expr
//! or_expr  -> and_expr ("or" and_expr)*
//! and_expr -> cmp_expr ("and" cmp_expr)*
//! cmp_expr -> add_expr (("==" | "!=" | "<" | "<=" | ">" | ">=") add_expr)?
//! add_expr -> mul_expr (("+" | "-") mul_expr)*
//! mul_expr -> unary (("*" | "/" | "%") unary)*
//! unary    -> ("not" | "-") unary | primary
//! primary  -> INT | BOOL | IDENT | "secret" "(" expr ")" | "(" expr ")"
//! ```

use vstd::prelude::*;
use crate::ast::BinOp;
use crate::ast::Expr;
use crate::ast::ExprV;
use crate::ast::UnaryOp;
use crate::lexer::Token;
use crate::lexer::TokenV;
use crate::lexer::tokens_view;

verus! {

/// Syntactic failures: a token that does not fit the grammar here, with a
/// description of what was expected, or the input ending too early.
#[derive(Debug)]
pub enum ParseError {
    UnexpectedToken(Token, &'static str),
    UnexpectedEof,
}

/// Mathematical model of a syntactic failure.
pub enum ParseErrV {
    UnexpectedToken(TokenV, Seq<char>),
    UnexpectedEof,
}

impl View for ParseError {
    type V = ParseErrV;

    open spec fn view(&self) -> ParseErrV {
        match self {
            ParseError::UnexpectedToken(t, what) => ParseErrV::UnexpectedToken(t@, what@),
            ParseError::UnexpectedEof => ParseErrV::UnexpectedEof,
        }
    }
}

pub open spec fn spec_peek_token(ts: Seq<TokenV>, pos: int) -> Option<TokenV> {
    if 0 <= pos && pos < ts.len() {
        Some(ts[pos])
    } else {
        None
    }
}

/// Requiring one fixed token: on a match the position moves past it.
pub open spec fn spec_expect(ts: Seq<TokenV>, pos: int, expected: TokenV) -> Result<
    int,
    ParseErrV,
> {
    match spec_peek_token(ts, pos) {
        Some(t) => if t == expected {
            Ok(pos + 1)
        } else {
            Err(ParseErrV::UnexpectedToken(t, "specific token"@))
        },
        None => Err(ParseErrV::UnexpectedEof),
    }
}

pub open spec fn cmp_op_of(t: TokenV) -> Option<BinOp> {
    match t {
        TokenV::Eq => Some(BinOp::Eq),
        TokenV::Ne => Some(BinOp::Ne),
        TokenV::Lt => Some(BinOp::Lt),
        TokenV::Le => Some(BinOp::Le),
        TokenV::Gt => Some(BinOp::Gt),
        TokenV::Ge => Some(BinOp::Ge),
        _ => None,
    }
}

pub open spec fn add_op_of(t: TokenV) -> Option<BinOp> {
    match t {
        TokenV::Plus => Some(BinOp::Add),
        TokenV::Minus => Some(BinOp::Sub),
        _ => None,
    }
}

pub open spec fn mul_op_of(t: TokenV) -> Option<BinOp> {
    match t {
        TokenV::Star => Some(BinOp::Mul),
        TokenV::Slash => Some(BinOp::Div),
        TokenV::Percent => Some(BinOp::Mod),
        _ => None,
    }
}

/// A whole expression: a let binding, a conditional, or a disjunction.
///
/// Each parsing function returns the parsed tree together with the position
/// after it, or the first failure. A successful parse always consumes at
/// least one token; the guards on positions returned by sub-parses record
/// that and bound the recursion.
pub open spec fn spec_parse_expr(ts: Seq<TokenV>, pos: int) -> Result<(ExprV, int), ParseErrV>
    decreases ts.len() - pos, 12int,
        when 0 <= pos <= ts.len()
{
    match spec_peek_token(ts, pos) {
        Some(TokenV::Let) => spec_parse_let(ts, pos),
        Some(TokenV::If) => spec_parse_if(ts, pos),
        _ => spec_parse_or(ts, pos),
    }
}

pub open spec fn spec_parse_let(ts: Seq<TokenV>, pos: int) -> Result<(ExprV, int), ParseErrV>
    decreases ts.len() - pos, 11int,
        when 0 <= pos <= ts.len()
{
    match spec_expect(ts, pos, TokenV::Let) {
        Err(e) => Err(e),
        Ok(p1) => match spec_peek_token(ts, p1) {
            Some(TokenV::Ident(name)) => match spec_expect(ts, p1 + 1, TokenV::Assign) {
                Err(e) => Err(e),
                Ok(p2) => match spec_parse_expr(ts, p2) {
                    Err(e) => Err(e),
                    Ok((v, pv)) => if pos < pv && pv <= ts.len() {
                        match spec_parse_expr(ts, pv) {
                            Err(e) => Err(e),
                            Ok((b, pb)) => Ok(
                                (
                                    ExprV::Let {
                                        name,
                                        value: Box::new(v),
                                        body: Box::new(b),
                                    },
                                    pb,
                                ),
                            ),
                        }
                    } else {
                        Err(ParseErrV::UnexpectedEof)
                    },
                },
            },
            Some(t) => Err(ParseErrV::UnexpectedToken(t, "identifier"@)),
            None => Err(ParseErrV::UnexpectedEof),
        },
    }
}

pub open spec fn spec_parse_if(ts: Seq<TokenV>, pos: int) -> Result<(ExprV, int), ParseErrV>
    decreases ts.len() - pos, 11int,
        when 0 <= pos <= ts.len()
{
    match spec_expect(ts, pos, TokenV::If) {
        Err(e) => Err(e),
        Ok(p1) => match spec_parse_expr(ts, p1) {
            Err(e) => Err(e),
            Ok((c, pc)) => if pos < pc && pc <= ts.len() {
                match spec_expect(ts, pc, TokenV::Then) {
                    Err(e) => Err(e),
                    Ok(p2) => match spec_parse_expr(ts, p2) {
                        Err(e) => Err(e),
                        Ok((th, pt)) => if pos < pt && pt <= ts.len() {
                            match spec_expect(ts, pt, TokenV::Else) {
                                Err(e) => Err(e),
                                Ok(p3) => match spec_parse_expr(ts, p3) {
                                    Err(e) => Err(e),
                                    Ok((el, pe)) => Ok(
                                        (
                                            ExprV::If {
                                                cond: Box::new(c),
                                                then_branch: Box::new(th),
                                                else_branch: Box::new(el),
                                            },
                                            pe,
                                        ),
                                    ),
                                },
                            }
                        } else {
                            Err(ParseErrV::UnexpectedEof)
                        },
                    },
                }
            } else {
                Err(ParseErrV::UnexpectedEof)
            },
        },
    }
}

pub open spec fn spec_parse_or(ts: Seq<TokenV>, pos: int) -> Result<(ExprV, int), ParseErrV>
    decreases ts.len() - pos, 10int,
        when 0 <= pos <= ts.len()
{
    match spec_parse_and(ts, pos) {
        Err(e) => Err(e),
        Ok((l, p1)) => if pos < p1 && p1 <= ts.len() {
            spec_parse_or_rest(ts, p1, l)
        } else {
            Err(ParseErrV::UnexpectedEof)
        },
    }
}

pub open spec fn spec_parse_or_rest(ts: Seq<TokenV>, pos: int, left: ExprV) -> Result<
    (ExprV, int),
    ParseErrV,
>
    decreases ts.len() - pos, 9int,
        when 0 <= pos <= ts.len()
{
    if spec_peek_token(ts, pos) == Some(TokenV::Or) {
        match spec_parse_and(ts, pos + 1) {
            Err(e) => Err(e),
            Ok((r, p2)) => if pos < p2 && p2 <= ts.len() {
                spec_parse_or_rest(
                    ts,
                    p2,
                    ExprV::BinOp { op: BinOp::Or, left: Box::new(left), right: Box::new(r) },
                )
            } else {
                Err(ParseErrV::UnexpectedEof)
            },
        }
    } else {
        Ok((left, pos))
    }
}

pub open spec fn spec_parse_and(ts: Seq<TokenV>, pos: int) -> Result<(ExprV, int), ParseErrV>
    decreases ts.len() - pos, 8int,
        when 0 <= pos <= ts.len()
{
    match spec_parse_cmp(ts, pos) {
        Err(e) => Err(e),
        Ok((l, p1)) => if pos < p1 && p1 <= ts.len() {
            spec_parse_and_rest(ts, p1, l)
        } else {
            Err(ParseErrV::UnexpectedEof)
        },
    }
}

pub open spec fn spec_parse_and_rest(ts: Seq<TokenV>, pos: int, left: ExprV) -> Result<
    (ExprV, int),
    ParseErrV,
>
    decreases ts.len() - pos, 7int,
        when 0 <= pos <= ts.len()
{
    if spec_peek_token(ts, pos) == Some(TokenV::And) {
        match spec_parse_cmp(ts, pos + 1) {
            Err(e) => Err(e),
            Ok((r, p2)) => if pos < p2 && p2 <= ts.len() {
                spec_parse_and_rest(
                    ts,
                    p2,
                    ExprV::BinOp { op: BinOp::And, left: Box::new(left), right: Box::new(r) },
                )
            } else {
                Err(ParseErrV::UnexpectedEof)
            },
        }
    } else {
        Ok((left, pos))
    }
}

/// At most one comparison per level: comparisons do not chain.
pub open spec fn spec_parse_cmp(ts: Seq<TokenV>, pos: int) -> Result<(ExprV, int), ParseErrV>
    decreases ts.len() - pos, 6int,
        when 0 <= pos <= ts.len()
{
    match spec_parse_add(ts, pos) {
        Err(e) => Err(e),
        Ok((l, p1)) => if pos < p1 && p1 <= ts.len() {
            match spec_peek_token(ts, p1) {
                Some(t) => match cmp_op_of(t) {
                    Some(op) => match spec_parse_add(ts, p1 + 1) {
                        Err(e) => Err(e),
                        Ok((r, p2)) => Ok(
                            (ExprV::BinOp { op, left: Box::new(l), right: Box::new(r) }, p2),
                        ),
                    },
                    None => Ok((l, p1)),
                },
                None => Ok((l, p1)),
            }
        } else {
            Err(ParseErrV::UnexpectedEof)
        },
    }
}

pub open spec fn spec_parse_add(ts: Seq<TokenV>, pos: int) -> Result<(ExprV, int), ParseErrV>
    decreases ts.len() - pos, 5int,
        when 0 <= pos <= ts.len()
{
    match spec_parse_mul(ts, pos) {
        Err(e) => Err(e),
        Ok((l, p1)) => if pos < p1 && p1 <= ts.len() {
            spec_parse_add_rest(ts, p1, l)
        } else {
            Err(ParseErrV::UnexpectedEof)
        },
    }
}

pub open spec fn spec_parse_add_rest(ts: Seq<TokenV>, pos: int, left: ExprV) -> Result<
    (ExprV, int),
    ParseErrV,
>
    decreases ts.len() - pos, 4int,
        when 0 <= pos <= ts.len()
{
    match spec_peek_token(ts, pos) {
        Some(t) => match add_op_of(t) {
            Some(op) => match spec_parse_mul(ts, pos + 1) {
                Err(e) => Err(e),
                Ok((r, p2)) => if pos < p2 && p2 <= ts.len() {
                    spec_parse_add_rest(
                        ts,
                        p2,
                        ExprV::BinOp { op, left: Box::new(left), right: Box::new(r) },
                    )
                } else {
                    Err(ParseErrV::UnexpectedEof)
                },
            },
            None => Ok((left, pos)),
        },
        None => Ok((left, pos)),
    }
}

pub open spec fn spec_parse_mul(ts: Seq<TokenV>, pos: int) -> Result<(ExprV, int), ParseErrV>
    decreases ts.len() - pos, 3int,
        when 0 <= pos <= ts.len()
{
    match spec_parse_unary(ts, pos) {
        Err(e) => Err(e),
        Ok((l, p1)) => if pos < p1 && p1 <= ts.len() {
            spec_parse_mul_rest(ts, p1, l)
        } else {
            Err(ParseErrV::UnexpectedEof)
        },
    }
}

pub open spec fn spec_parse_mul_rest(ts: Seq<TokenV>, pos: int, left: ExprV) -> Result<
    (ExprV, int),
    ParseErrV,
>
    decreases ts.len() - pos, 2int,
        when 0 <= pos <= ts.len()
{
    match spec_peek_token(ts, pos) {
        Some(t) => match mul_op_of(t) {
            Some(op) => match spec_parse_unary(ts, pos + 1) {
                Err(e) => Err(e),
                Ok((r, p2)) => if pos < p2 && p2 <= ts.len() {
                    spec_parse_mul_rest(
                        ts,
                        p2,
                        ExprV::BinOp { op, left: Box::new(left), right: Box::new(r) },
                    )
                } else {
                    Err(ParseErrV::UnexpectedEof)
                },
            },
            None => Ok((left, pos)),
        },
        None => Ok((left, pos)),
    }
}

pub open spec fn spec_parse_unary(ts: Seq<TokenV>, pos: int) -> Result<(ExprV, int), ParseErrV>
    decreases ts.len() - pos, 1int,
        when 0 <= pos <= ts.len()
{
    match spec_peek_token(ts, pos) {
        Some(TokenV::Minus) => match spec_parse_unary(ts, pos + 1) {
            Err(e) => Err(e),
            Ok((inner, p)) => Ok((ExprV::UnaryOp { op: UnaryOp::Neg, expr: Box::new(inner) }, p)),
        },
        Some(TokenV::Not) => match spec_parse_unary(ts, pos + 1) {
            Err(e) => Err(e),
            Ok((inner, p)) => Ok((ExprV::UnaryOp { op: UnaryOp::Not, expr: Box::new(inner) }, p)),
        },
        _ => spec_parse_primary(ts, pos),
    }
}

pub open spec fn spec_parse_primary(ts: Seq<TokenV>, pos: int) -> Result<(ExprV, int), ParseErrV>
    decreases ts.len() - pos, 0int,
        when 0 <= pos <= ts.len()
{
    match spec_peek_token(ts, pos) {
        None => Err(ParseErrV::UnexpectedEof),
        Some(t) => match t {
            TokenV::Int(n) => Ok((ExprV::Int(n), pos + 1)),
            TokenV::Bool(b) => Ok((ExprV::Bool(b), pos + 1)),
            TokenV::Ident(name) => Ok((ExprV::Var(name), pos + 1)),
            TokenV::Secret => match spec_expect(ts, pos + 1, TokenV::LParen) {
                Err(e) => Err(e),
                Ok(p1) => match spec_parse_expr(ts, p1) {
                    Err(e) => Err(e),
                    Ok((inner, p2)) => match spec_expect(ts, p2, TokenV::RParen) {
                        Err(e) => Err(e),
                        Ok(p3) => Ok((ExprV::Secret(Box::new(inner)), p3)),
                    },
                },
            },
            TokenV::LParen => match spec_parse_expr(ts, pos + 1) {
                Err(e) => Err(e),
                Ok((inner, p2)) => match spec_expect(ts, p2, TokenV::RParen) {
                    Err(e) => Err(e),
                    Ok(p3) => Ok((inner, p3)),
                },
            },
            other => Err(ParseErrV::UnexpectedToken(other, "expression"@)),
        },
    }
}

/// The parser: a cursor over a borrowed token slice.
pub struct Parser<'a> {
    tokens: &'a [Token],
    pos: usize,
}

impl<'a> Parser<'a> {
    /// The token stream being parsed, as its model.
    pub closed spec fn toks(&self) -> Seq<TokenV> {
        tokens_view(self.tokens@)
    }

    /// The cursor, as an index into the token stream.
    pub closed spec fn position(&self) -> int {
        self.pos as int
    }

    /// The cursor never passes the end of the stream.
    pub closed spec fn wf(&self) -> bool {
        self.pos <= self.tokens@.len()
    }

    /// Build a parser over the given tokens, with the cursor at the start.
    pub fn new(tokens: &'a [Token]) -> (parser: Parser<'a>)
        ensures
            parser.wf(),
            parser.toks() == tokens_view(tokens@),
            parser.position() == 0,
    {
        Parser { tokens, pos: 0 }
    }

    fn peek(&self) -> (r: Option<&'a Token>)
        requires
            self.wf(),
        ensures
            match r {
                Some(t) => self.pos < self.tokens@.len() && t@ == self.toks()[self.pos as int]
                    && spec_peek_token(self.toks(), self.position()) == Some(t@),
                None => self.pos >= self.tokens@.len() && spec_peek_token(
                    self.toks(),
                    self.position(),
                ) == None::<TokenV>,
            },
    {
        if self.pos < self.tokens.len() {
            let toks = self.tokens;
            Some(&toks[self.pos])
        } else {
            None
        }
    }

    fn advance(&mut self) -> (r: Option<&'a Token>)
        requires
            old(self).wf(),
        ensures
            final(self).wf(),
            final(self).tokens == old(self).tokens,
            match r {
                Some(t) => old(self).pos < old(self).tokens@.len() && t@ == old(self).toks()[
                    old(self).pos as int
                ] && final(self).pos == old(self).pos + 1,
                None => old(self).pos >= old(self).tokens@.len() && final(self).pos == old(
                    self,
                ).pos,
            },
    {
        if self.pos < self.tokens.len() {
            let toks = self.tokens;
            let t = &toks[self.pos];
            self.pos = self.pos + 1;
            Some(t)
        } else {
            None
        }
    }

    fn expect(&mut self, expected: &Token) -> (r: Result<(), ParseError>)
        requires
            old(self).wf(),
        ensures
            final(self).wf(),
            final(self).tokens == old(self).tokens,
            match r {
                Ok(_) => spec_expect(old(self).toks(), old(self).pos as int, expected@) == Ok::<
                    int,
                    ParseErrV,
                >(final(self).pos as int) && final(self).pos == old(self).pos + 1,
                Err(e) => spec_expect(old(self).toks(), old(self).pos as int, expected@) == Err::<
                    int,
                    ParseErrV,
                >(e@) && final(self).pos == old(self).pos,
            },
    {
        match self.peek() {
            Some(t) => {
                let same = t.eq(expected);
                if same {
                    self.advance();
                    Ok(())
                } else {
                    Err(ParseError::UnexpectedToken(t.clone(), "specific token"))
                }
            },
            None => Err(ParseError::UnexpectedEof),
        }
    }

    /// Parse one whole expression from the current position; tokens after it
    /// are left unconsumed.
    pub fn parse(&mut self) -> (r: Result<Expr, ParseError>)
        requires
            old(self).wf(),
        ensures
            final(self).wf(),
            final(self).toks() == old(self).toks(),
            match r {
                Ok(e) => spec_parse_expr(old(self).toks(), old(self).position()) == Ok::<
                    (ExprV, int),
                    ParseErrV,
                >((e@, final(self).position())),
                Err(pe) => spec_parse_expr(old(self).toks(), old(self).position()) == Err::<
                    (ExprV, int),
                    ParseErrV,
                >(pe@),
            },
    {
        self.parse_expr()
    }

    fn parse_expr(&mut self) -> (r: Result<Expr, ParseError>)
        requires
            old(self).wf(),
        ensures
            final(self).wf(),
            final(self).tokens == old(self).tokens,
            match r {
                Ok(e) => spec_parse_expr(old(self).toks(), old(self).pos as int) == Ok::<
                    (ExprV, int),
                    ParseErrV,
                >((e@, final(self).pos as int)) && old(self).pos < final(self).pos,
                Err(pe) => spec_parse_expr(old(self).toks(), old(self).pos as int) == Err::<
                    (ExprV, int),
                    ParseErrV,
                >(pe@),
            },
        decreases self.tokens@.len() - self.pos, 12int,
    {
        match self.peek() {
            Some(t) => {
                if matches!(t, Token::Let) {
                    self.parse_let()
                } else if matches!(t, Token::If) {
                    self.parse_if()
                } else {
                    self.parse_or()
                }
            },
            None => self.parse_or(),
        }
    }

    fn parse_let(&mut self) -> (r: Result<Expr, ParseError>)
        requires
            old(self).wf(),
        ensures
            final(self).wf(),
            final(self).tokens == old(self).tokens,
            match r {
                Ok(e) => spec_parse_let(old(self).toks(), old(self).pos as int) == Ok::<
                    (ExprV, int),
                    ParseErrV,
                >((e@, final(self).pos as int)) && old(self).pos < final(self).pos,
                Err(pe) => spec_parse_let(old(self).toks(), old(self).pos as int) == Err::<
                    (ExprV, int),
                    ParseErrV,
                >(pe@),
            },
        decreases self.tokens@.len() - self.pos, 11int,
    {
        match self.expect(&Token::Let) {
            Err(e) => {
                return Err(e);
            },
            Ok(_) => {},
        }
        let name: String = match self.advance() {
            Some(t) => match t {
                Token::Ident(n) => n.clone(),
                _ => {
                    return Err(ParseError::UnexpectedToken(t.clone(), "identifier"));
                },
            },
            None => {
                return Err(ParseError::UnexpectedEof);
            },
        };
        match self.expect(&Token::Assign) {
            Err(e) => {
                return Err(e);
            },
            Ok(_) => {},
        }
        let value = match self.parse_expr() {
            Err(e) => {
                return Err(e);
            },
            Ok(v) => v,
        };
        let body = match self.parse_expr() {
            Err(e) => {
                return Err(e);
            },
            Ok(b) => b,
        };
        Ok(Expr::Let { name, value: Box::new(value), body: Box::new(body) })
    }

    fn parse_if(&mut self) -> (r: Result<Expr, ParseError>)
        requires
            old(self).wf(),
        ensures
            final(self).wf(),
            final(self).tokens == old(self).tokens,
            match r {
                Ok(e) => spec_parse_if(old(self).toks(), old(self).pos as int) == Ok::<
                    (ExprV, int),
                    ParseErrV,
                >((e@, final(self).pos as int)) && old(self).pos < final(self).pos,
                Err(pe) => spec_parse_if(old(self).toks(), old(self).pos as int) == Err::<
                    (ExprV, int),
                    ParseErrV,
                >(pe@),
            },
        decreases self.tokens@.len() - self.pos, 11int,
    {
        match self.expect(&Token::If) {
            Err(e) => {
                return Err(e);
            },
            Ok(_) => {},
        }
        let cond = match self.parse_expr() {
            Err(e) => {
                return Err(e);
            },
            Ok(c) => c,
        };
        match self.expect(&Token::Then) {
            Err(e) => {
                return Err(e);
            },
            Ok(_) => {},
        }
        let then_branch = match self.parse_expr() {
            Err(e) => {
                return Err(e);
            },
            Ok(t) => t,
        };
        match self.expect(&Token::Else) {
            Err(e) => {
                return Err(e);
            },
            Ok(_) => {},
        }
        let else_branch = match self.parse_expr() {
            Err(e) => {
                return Err(e);
            },
            Ok(el) => el,
        };
        Ok(
            Expr::If {
                cond: Box::new(cond),
                then_branch: Box::new(then_branch),
                else_branch: Box::new(else_branch),
            },
        )
    }

    fn parse_or(&mut self) -> (r: Result<Expr, ParseError>)
        requires
            old(self).wf(),
        ensures
            final(self).wf(),
            final(self).tokens == old(self).tokens,
            match r {
                Ok(e) => spec_parse_or(old(self).toks(), old(self).pos as int) == Ok::<
                    (ExprV, int),
                    ParseErrV,
                >((e@, final(self).pos as int)) && old(self).pos < final(self).pos,
                Err(pe) => spec_parse_or(old(self).toks(), old(self).pos as int) == Err::<
                    (ExprV, int),
                    ParseErrV,
                >(pe@),
            },
        decreases self.tokens@.len() - self.pos, 10int,
    {
        let ghost ts = self.toks();
        let ghost p0 = self.pos as int;
        let mut left = match self.parse_and() {
            Err(e) => {
                return Err(e);
            },
            Ok(l) => l,
        };
        loop
            invariant
                self.wf(),
                self.tokens == old(self).tokens,
                ts == self.toks(),
                p0 == old(self).pos as int,
                p0 < self.pos <= self.tokens@.len(),
                spec_parse_or(ts, p0) == spec_parse_or_rest(ts, self.pos as int, left@),
            ensures
                self.wf(),
                self.tokens == old(self).tokens,
                p0 < self.pos <= self.tokens@.len(),
                spec_parse_or(ts, p0) == Ok::<(ExprV, int), ParseErrV>(
                    (left@, self.pos as int),
                ),
            decreases self.tokens@.len() - self.pos,
        {
            match self.peek() {
                None => {
                    break ;
                },
                Some(t) => {
                    if matches!(t, Token::Or) {
                        self.advance();
                        let right = match self.parse_and() {
                            Err(e) => {
                                return Err(e);
                            },
                            Ok(r) => r,
                        };
                        left = Expr::BinOp {
                            op: BinOp::Or,
                            left: Box::new(left),
                            right: Box::new(right),
                        };
                    } else {
                        break ;
                    }
                },
            }
        }
        Ok(left)
    }

    fn parse_and(&mut self) -> (r: Result<Expr, ParseError>)
        requires
            old(self).wf(),
        ensures
            final(self).wf(),
            final(self).tokens == old(self).tokens,
            match r {
                Ok(e) => spec_parse_and(old(self).toks(), old(self).pos as int) == Ok::<
                    (ExprV, int),
                    ParseErrV,
                >((e@, final(self).pos as int)) && old(self).pos < final(self).pos,
                Err(pe) => spec_parse_and(old(self).toks(), old(self).pos as int) == Err::<
                    (ExprV, int),
                    ParseErrV,
                >(pe@),
            },
        decreases self.tokens@.len() - self.pos, 8int,
    {
        let ghost ts = self.toks();
        let ghost p0 = self.pos as int;
        let mut left = match self.parse_cmp() {
            Err(e) => {
                return Err(e);
            },
            Ok(l) => l,
        };
        loop
            invariant
                self.wf(),
                self.tokens == old(self).tokens,
                ts == self.toks(),
                p0 == old(self).pos as int,
                p0 < self.pos <= self.tokens@.len(),
                spec_parse_and(ts, p0) == spec_parse_and_rest(ts, self.pos as int, left@),
            ensures
                self.wf(),
                self.tokens == old(self).tokens,
                p0 < self.pos <= self.tokens@.len(),
                spec_parse_and(ts, p0) == Ok::<(ExprV, int), ParseErrV>(
                    (left@, self.pos as int),
                ),
            decreases self.tokens@.len() - self.pos,
        {
            match self.peek() {
                None => {
                    break ;
                },
                Some(t) => {
                    if matches!(t, Token::And) {
                        self.advance();
                        let right = match self.parse_cmp() {
                            Err(e) => {
                                return Err(e);
                            },
                            Ok(r) => r,
                        };
                        left = Expr::BinOp {
                            op: BinOp::And,
                            left: Box::new(left),
                            right: Box::new(right),
                        };
                    } else {
                        break ;
                    }
                },
            }
        }
        Ok(left)
    }

    fn parse_cmp(&mut self) -> (r: Result<Expr, ParseError>)
        requires
            old(self).wf(),
        ensures
            final(self).wf(),
            final(self).tokens == old(self).tokens,
            match r {
                Ok(e) => spec_parse_cmp(old(self).toks(), old(self).pos as int) == Ok::<
                    (ExprV, int),
                    ParseErrV,
                >((e@, final(self).pos as int)) && old(self).pos < final(self).pos,
                Err(pe) => spec_parse_cmp(old(self).toks(), old(self).pos as int) == Err::<
                    (ExprV, int),
                    ParseErrV,
                >(pe@),
            },
        decreases self.tokens@.len() - self.pos, 6int,
    {
        let left = match self.parse_add() {
            Err(e) => {
                return Err(e);
            },
            Ok(l) => l,
        };
        let op: Option<BinOp> = match self.peek() {
            Some(t) => match t {
                Token::Eq => Some(BinOp::Eq),
                Token::Ne => Some(BinOp::Ne),
                Token::Lt => Some(BinOp::Lt),
                Token::Le => Some(BinOp::Le),
                Token::Gt => Some(BinOp::Gt),
                Token::Ge => Some(BinOp::Ge),
                _ => None,
            },
            None => None,
        };
        match op {
            None => Ok(left),
            Some(o) => {
                self.advance();
                let right = match self.parse_add() {
                    Err(e) => {
                        return Err(e);
                    },
                    Ok(r) => r,
                };
                Ok(Expr::BinOp { op: o, left: Box::new(left), right: Box::new(right) })
            },
        }
    }

    fn parse_add(&mut self) -> (r: Result<Expr, ParseError>)
        requires
            old(self).wf(),
        ensures
            final(self).wf(),
            final(self).tokens == old(self).tokens,
            match r {
                Ok(e) => spec_parse_add(old(self).toks(), old(self).pos as int) == Ok::<
                    (ExprV, int),
                    ParseErrV,
                >((e@, final(self).pos as int)) && old(self).pos < final(self).pos,
                Err(pe) => spec_parse_add(old(self).toks(), old(self).pos as int) == Err::<
                    (ExprV, int),
                    ParseErrV,
                >(pe@),
            },
        decreases self.tokens@.len() - self.pos, 5int,
    {
        let ghost ts = self.toks();
        let ghost p0 = self.pos as int;
        let mut left = match self.parse_mul() {
            Err(e) => {
                return Err(e);
            },
            Ok(l) => l,
        };
        loop
            invariant
                self.wf(),
                self.tokens == old(self).tokens,
                ts == self.toks(),
                p0 == old(self).pos as int,
                p0 < self.pos <= self.tokens@.len(),
                spec_parse_add(ts, p0) == spec_parse_add_rest(ts, self.pos as int, left@),
            ensures
                self.wf(),
                self.tokens == old(self).tokens,
                p0 < self.pos <= self.tokens@.len(),
                spec_parse_add(ts, p0) == Ok::<(ExprV, int), ParseErrV>(
                    (left@, self.pos as int),
                ),
            decreases self.tokens@.len() - self.pos,
        {
            let op: Option<BinOp> = match self.peek() {
                Some(t) => match t {
                    Token::Plus => Some(BinOp::Add),
                    Token::Minus => Some(BinOp::Sub),
                    _ => None,
                },
                None => None,
            };
            match op {
                None => {
                    break ;
                },
                Some(o) => {
                    self.advance();
                    let right = match self.parse_mul() {
                        Err(e) => {
                            return Err(e);
                        },
                        Ok(r) => r,
                    };
                    left = Expr::BinOp { op: o, left: Box::new(left), right: Box::new(right) };
                },
            }
        }
        Ok(left)
    }

    fn parse_mul(&mut self) -> (r: Result<Expr, ParseError>)
        requires
            old(self).wf(),
        ensures
            final(self).wf(),
            final(self).tokens == old(self).tokens,
            match r {
                Ok(e) => spec_parse_mul(old(self).toks(), old(self).pos as int) == Ok::<
                    (ExprV, int),
                    ParseErrV,
                >((e@, final(self).pos as int)) && old(self).pos < final(self).pos,
                Err(pe) => spec_parse_mul(old(self).toks(), old(self).pos as int) == Err::<
                    (ExprV, int),
                    ParseErrV,
                >(pe@),
            },
        decreases self.tokens@.len() - self.pos, 3int,
    {
        let ghost ts = self.toks();
        let ghost p0 = self.pos as int;
        let mut left = match self.parse_unary() {
            Err(e) => {
                return Err(e);
            },
            Ok(l) => l,
        };
        loop
            invariant
                self.wf(),
                self.tokens == old(self).tokens,
                ts == self.toks(),
                p0 == old(self).pos as int,
                p0 < self.pos <= self.tokens@.len(),
                spec_parse_mul(ts, p0) == spec_parse_mul_rest(ts, self.pos as int, left@),
            ensures
                self.wf(),
                self.tokens == old(self).tokens,
                p0 < self.pos <= self.tokens@.len(),
                spec_parse_mul(ts, p0) == Ok::<(ExprV, int), ParseErrV>(
                    (left@, self.pos as int),
                ),
            decreases self.tokens@.len() - self.pos,
        {
            let op: Option<BinOp> = match self.peek() {
                Some(t) => match t {
                    Token::Star => Some(BinOp::Mul),
                    Token::Slash => Some(BinOp::Div),
                    Token::Percent => Some(BinOp::Mod),
                    _ => None,
                },
                None => None,
            };
            match op {
                None => {
                    break ;
                },
                Some(o) => {
                    self.advance();
                    let right = match self.parse_unary() {
                        Err(e) => {
                            return Err(e);
                        },
                        Ok(r) => r,
                    };
                    left = Expr::BinOp { op: o, left: Box::new(left), right: Box::new(right) };
                },
            }
        }
        Ok(left)
    }

    fn parse_unary(&mut self) -> (r: Result<Expr, ParseError>)
        requires
            old(self).wf(),
        ensures
            final(self).wf(),
            final(self).tokens == old(self).tokens,
            match r {
                Ok(e) => spec_parse_unary(old(self).toks(), old(self).pos as int) == Ok::<
                    (ExprV, int),
                    ParseErrV,
                >((e@, final(self).pos as int)) && old(self).pos < final(self).pos,
                Err(pe) => spec_parse_unary(old(self).toks(), old(self).pos as int) == Err::<
                    (ExprV, int),
                    ParseErrV,
                >(pe@),
            },
        decreases self.tokens@.len() - self.pos, 1int,
    {
        let is_neg: bool = match self.peek() {
            Some(t) => matches!(t, Token::Minus),
            None => false,
        };
        let is_not: bool = match self.peek() {
            Some(t) => matches!(t, Token::Not),
            None => false,
        };
        if is_neg {
            self.advance();
            let inner = match self.parse_unary() {
                Err(e) => {
                    return Err(e);
                },
                Ok(x) => x,
            };
            Ok(Expr::UnaryOp { op: UnaryOp::Neg, expr: Box::new(inner) })
        } else if is_not {
            self.advance();
            let inner = match self.parse_unary() {
                Err(e) => {
                    return Err(e);
                },
                Ok(x) => x,
            };
            Ok(Expr::UnaryOp { op: UnaryOp::Not, expr: Box::new(inner) })
        } else {
            self.parse_primary()
        }
    }

    fn parse_primary(&mut self) -> (r: Result<Expr, ParseError>)
        requires
            old(self).wf(),
        ensures
            final(self).wf(),
            final(self).tokens == old(self).tokens,
            match r {
                Ok(e) => spec_parse_primary(old(self).toks(), old(self).pos as int) == Ok::<
                    (ExprV, int),
                    ParseErrV,
                >((e@, final(self).pos as int)) && old(self).pos < final(self).pos,
                Err(pe) => spec_parse_primary(old(self).toks(), old(self).pos as int) == Err::<
                    (ExprV, int),
                    ParseErrV,
                >(pe@),
            },
        decreases self.tokens@.len() - self.pos, 0int,
    {
        match self.advance() {
            None => Err(ParseError::UnexpectedEof),
            Some(t) => match t {
                Token::Int(n) => Ok(Expr::Int(*n)),
                Token::Bool(b) => Ok(Expr::Bool(*b)),
                Token::Ident(name) => Ok(Expr::Var(name.clone())),
                Token::Secret => {
                    match self.expect(&Token::LParen) {
                        Err(e) => {
                            return Err(e);
                        },
                        Ok(_) => {},
                    }
                    let inner = match self.parse_expr() {
                        Err(e) => {
                            return Err(e);
                        },
                        Ok(x) => x,
                    };
                    match self.expect(&Token::RParen) {
                        Err(e) => {
                            return Err(e);
                        },
                        Ok(_) => {},
                    }
                    Ok(Expr::Secret(Box::new(inner)))
                },
                Token::LParen => {
                    let inner = match self.parse_expr() {
                        Err(e) => {
                            return Err(e);
                        },
                        Ok(x) => x,
                    };
                    match self.expect(&Token::RParen) {
                        Err(e) => {
                            return Err(e);
                        },
                        Ok(_) => {},
                    }
                    Ok(inner)
                },
                _ => Err(ParseError::UnexpectedToken(t.clone(), "expression")),
            },
        }
    }
}

} // verus!

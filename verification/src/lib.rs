//! A transpiler for a small expression language into an oblivious,
//! constant-time form.
//!
//! Branching on secret data leaks information through execution time. This
//! crate translates expressions into a representation in which every
//! operation is explicitly marked constant-time and every conditional whose
//! condition depends on secret data is rewritten into an oblivious selection
//! that evaluates both arms unconditionally.

use vstd::prelude::*;

pub mod ast;
pub mod emit;
pub mod ir;
pub mod lexer;
pub mod parser;
pub mod transform;

pub use ast::Expr;
pub use ir::ObliExpr;
pub use lexer::Lexer;
pub use parser::Parser;
pub use transform::to_oblivious;

use crate::emit::emit_rust;
use crate::emit::lex_error_message;
use crate::emit::parse_error_message;
use crate::emit::spec_emit;
use crate::lexer::spec_tokenize;
use crate::parser::spec_parse_expr;
use crate::transform::spec_transform;

verus! {

/// The whole pipeline over the model: tokenize, parse, transform, render.
/// The first failure is rendered as its diagnostic and ends the run; the
/// transformation and the rendering themselves cannot fail.
pub open spec fn spec_transpile(source: Seq<char>) -> Result<Seq<char>, Seq<char>> {
    match spec_tokenize(source) {
        Err(e) => Err(lex_error_message(e)),
        Ok(toks) => match spec_parse_expr(toks, 0) {
            Err(e) => Err(parse_error_message(e)),
            Ok((tree, _)) => Ok(spec_emit(spec_transform(tree, Set::empty()).0)),
        },
    }
}

/// Transpile source text into constant-time target source text, or report
/// the first lexical or syntactic failure as a textual diagnostic.
pub fn transpile(source: &str) -> (r: Result<String, String>)
    ensures
        match r {
            Ok(code) => spec_transpile(source@) == Ok::<Seq<char>, Seq<char>>(code@),
            Err(diagnostic) => spec_transpile(source@) == Err::<Seq<char>, Seq<char>>(
                diagnostic@,
            ),
        },
{
    let mut lexer = Lexer::new(source);
    let tokens = match lexer.tokenize() {
        Ok(tokens) => tokens,
        Err(e) => {
            return Err(e.message());
        },
    };
    let mut parser = Parser::new(tokens.as_slice());
    let tree = match parser.parse() {
        Ok(tree) => tree,
        Err(e) => {
            return Err(e.message());
        },
    };
    let obli_ir = to_oblivious(&tree);
    Ok(emit_rust(&obli_ir))
}

} // verus!

use obli_transpiler::ast::BinOp;
use obli_transpiler::ast::Expr;
use obli_transpiler::lexer::Lexer;
use obli_transpiler::parser::ParseError;
use obli_transpiler::parser::Parser;

fn parse(input: &str) -> Result<Expr, ParseError> {
    let mut lexer = Lexer::new(input);
    let tokens = lexer.tokenize().unwrap();
    let mut parser = Parser::new(&tokens);
    parser.parse()
}

#[test]
fn test_simple_expr() {
    let expr = parse("1 + 2").unwrap();
    assert!(matches!(expr, Expr::BinOp { op: BinOp::Add, .. }));
}

#[test]
fn test_secret() {
    let expr = parse("secret(42)").unwrap();
    assert!(matches!(expr, Expr::Secret(_)));
}

#[test]
fn parser_test_if_then_else() {
    let expr = parse("if x > 0 then 1 else 0").unwrap();
    assert!(matches!(expr, Expr::If { .. }));
}

#[test]
fn test_let() {
    let expr = parse("let x = 1 x + 1").unwrap();
    assert!(matches!(expr, Expr::Let { .. }));
}

#[test]
fn test_precedence() {
    // 1 + 2 * 3 parses as 1 + (2 * 3)
    let expr = parse("1 + 2 * 3").unwrap();
    match expr {
        Expr::BinOp { op: BinOp::Add, left, right } => {
            assert!(matches!(*left, Expr::Int(1)));
            assert!(matches!(*right, Expr::BinOp { op: BinOp::Mul, .. }));
        }
        other => panic!("expected addition at the top, got {:?}", other),
    }
}

#[test]
fn test_unary_nesting() {
    let expr = parse("not -1").unwrap();
    match expr {
        Expr::UnaryOp { op: obli_transpiler::ast::UnaryOp::Not, expr: inner } => {
            assert!(matches!(
                *inner,
                Expr::UnaryOp { op: obli_transpiler::ast::UnaryOp::Neg, .. }
            ));
        }
        other => panic!("expected unary not, got {:?}", other),
    }
}

#[test]
fn test_empty_input_error() {
    let err = parse("").unwrap_err();
    assert!(matches!(err, ParseError::UnexpectedEof));
}

#[test]
fn test_unexpected_token_error() {
    let err = parse(")").unwrap_err();
    match err {
        ParseError::UnexpectedToken(_, what) => assert_eq!(what, "expression"),
        other => panic!("expected an unexpected-token failure, got {:?}", other),
    }
}

#[test]
fn test_let_needs_identifier() {
    let err = parse("let 5 = 1 x").unwrap_err();
    match err {
        ParseError::UnexpectedToken(_, what) => assert_eq!(what, "identifier"),
        other => panic!("expected an unexpected-token failure, got {:?}", other),
    }
}

#[test]
fn test_unclosed_paren_error() {
    let err = parse("(1 + 2").unwrap_err();
    assert!(matches!(err, ParseError::UnexpectedEof));
}

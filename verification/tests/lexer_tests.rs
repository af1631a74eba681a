use obli_transpiler::lexer::LexError;
use obli_transpiler::lexer::Lexer;
use obli_transpiler::lexer::Token;

#[test]
fn test_basic_tokens() {
    let input = "let x = 42";
    let mut lexer = Lexer::new(input);
    let tokens = lexer.tokenize();
    assert_eq!(
        tokens.unwrap(),
        vec![
            Token::Let,
            Token::Ident("x".to_string()),
            Token::Assign,
            Token::Int(42),
        ]
    );
}

#[test]
fn test_operators() {
    let input = "1 + 2 * 3 == 7";
    let mut lexer = Lexer::new(input);
    let tokens = lexer.tokenize();
    assert_eq!(
        tokens.unwrap(),
        vec![
            Token::Int(1),
            Token::Plus,
            Token::Int(2),
            Token::Star,
            Token::Int(3),
            Token::Eq,
            Token::Int(7),
        ]
    );
}

#[test]
fn lexer_test_if_then_else() {
    let input = "if x > 0 then x else 0";
    let mut lexer = Lexer::new(input);
    let tokens = lexer.tokenize();
    assert_eq!(
        tokens.unwrap(),
        vec![
            Token::If,
            Token::Ident("x".to_string()),
            Token::Gt,
            Token::Int(0),
            Token::Then,
            Token::Ident("x".to_string()),
            Token::Else,
            Token::Int(0),
        ]
    );
}

#[test]
fn test_comment_skipped() {
    let input = "1 + 2 # the rest is commentary\n";
    let mut lexer = Lexer::new(input);
    let tokens = lexer.tokenize();
    assert_eq!(
        tokens.unwrap(),
        vec![Token::Int(1), Token::Plus, Token::Int(2)]
    );
}

#[test]
fn test_two_char_operators() {
    let input = "a != b <= c >= d && e || f";
    let mut lexer = Lexer::new(input);
    let tokens = lexer.tokenize();
    assert_eq!(
        tokens.unwrap(),
        vec![
            Token::Ident("a".to_string()),
            Token::Ne,
            Token::Ident("b".to_string()),
            Token::Le,
            Token::Ident("c".to_string()),
            Token::Ge,
            Token::Ident("d".to_string()),
            Token::And,
            Token::Ident("e".to_string()),
            Token::Or,
            Token::Ident("f".to_string()),
        ]
    );
}

#[test]
fn test_unexpected_char_error() {
    let input = "1 @ 2";
    let mut lexer = Lexer::new(input);
    let err = lexer.tokenize().unwrap_err();
    assert!(matches!(err, LexError::UnexpectedChar('@', 2)));
}

#[test]
fn test_lone_ampersand_error() {
    let input = "a & b";
    let mut lexer = Lexer::new(input);
    let err = lexer.tokenize().unwrap_err();
    assert!(matches!(err, LexError::UnexpectedChar('&', 2)));
}

#[test]
fn test_number_too_large_error() {
    let input = "99999999999999999999";
    let mut lexer = Lexer::new(input);
    let err = lexer.tokenize().unwrap_err();
    assert!(matches!(err, LexError::InvalidNumber(0)));
}

#[test]
fn test_number_at_boundary() {
    let input = "9223372036854775807";
    let mut lexer = Lexer::new(input);
    let tokens = lexer.tokenize().unwrap();
    assert_eq!(tokens, vec![Token::Int(i64::MAX)]);

    let mut lexer = Lexer::new("9223372036854775808");
    let err = lexer.tokenize().unwrap_err();
    assert!(matches!(err, LexError::InvalidNumber(0)));
}

#[test]
fn test_unicode_identifier() {
    let input = "let café = 1 café";
    let mut lexer = Lexer::new(input);
    let tokens = lexer.tokenize();
    assert_eq!(
        tokens.unwrap(),
        vec![
            Token::Let,
            Token::Ident("café".to_string()),
            Token::Assign,
            Token::Int(1),
            Token::Ident("café".to_string()),
        ]
    );
}

#[test]
fn test_unicode_ident_run_read_whole() {
    let input = "abé";
    let mut lexer = Lexer::new(input);
    let tokens = lexer.tokenize();
    assert_eq!(tokens.unwrap(), vec![Token::Ident("abé".to_string())]);
}

#[test]
fn test_unicode_whitespace_skipped() {
    let input = "1\u{00A0}+\u{2003}2";
    let mut lexer = Lexer::new(input);
    let tokens = lexer.tokenize();
    assert_eq!(
        tokens.unwrap(),
        vec![Token::Int(1), Token::Plus, Token::Int(2)]
    );
}

#[test]
fn test_error_position_is_byte_offset() {
    // 'é' is two bytes, so '@' sits at char index 2 but byte offset 3.
    let mut lexer = Lexer::new("é @");
    let err = lexer.tokenize().unwrap_err();
    assert!(matches!(err, LexError::UnexpectedChar('@', 3)));
}

#[test]
fn test_error_position_after_unicode_comment() {
    // The comment holds a two-byte character; the offense after it is
    // reported at its byte offset, not its character index.
    let mut lexer = Lexer::new("# héllo\n@");
    let err = lexer.tokenize().unwrap_err();
    assert!(matches!(err, LexError::UnexpectedChar('@', 9)));
}

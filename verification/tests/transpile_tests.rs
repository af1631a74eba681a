use obli_transpiler::transpile;

#[test]
fn test_transpile_public_add() {
    assert_eq!(transpile("1 + 2").unwrap(), "ct_add(1, 2)");
}

#[test]
fn test_transpile_secret_literal() {
    assert_eq!(transpile("secret(42)").unwrap(), "ct_secret(42)");
}

#[test]
fn test_transpile_secret_conditional() {
    assert_eq!(
        transpile("let x = secret(1) if x > 0 then 1 else 0").unwrap(),
        "{ let x = ct_secret(1); ct_select(ct_gt(x, 0), 1, 0) }"
    );
}

#[test]
fn test_transpile_public_conditional() {
    assert_eq!(
        transpile("let x = 1 if x > 0 then 1 else 0").unwrap(),
        "{ let x = 1; if ct_gt(x, 0) { 1 } else { 0 } }"
    );
}

#[test]
fn test_transpile_unary() {
    assert_eq!(transpile("-5").unwrap(), "ct_neg(5)");
    assert_eq!(transpile("not true").unwrap(), "ct_not(true)");
}

#[test]
fn test_transpile_negative_literal_rendering() {
    assert_eq!(transpile("0 - 17").unwrap(), "ct_sub(0, 17)");
    assert_eq!(transpile("10 % 3").unwrap(), "ct_mod(10, 3)");
}

#[test]
fn test_transpile_lex_diagnostic() {
    assert_eq!(
        transpile("1 @ 2").unwrap_err(),
        "unexpected character: '@' at position 2"
    );
    assert_eq!(
        transpile("99999999999999999999").unwrap_err(),
        "invalid number at position 0"
    );
}

#[test]
fn test_transpile_parse_diagnostic() {
    assert_eq!(
        transpile("let 5 = 1 x").unwrap_err(),
        "unexpected token: Int(5), expected identifier"
    );
    assert_eq!(transpile("").unwrap_err(), "unexpected end of input");
}

#[test]
fn test_transpile_unicode_identifier() {
    assert_eq!(
        transpile("let café = 1 café").unwrap(),
        "{ let café = 1; café }"
    );
}

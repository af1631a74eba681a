//! The tokenizer for the source language.
//!
//! Failure positions are byte offsets into the UTF-8 input text.
//! Whitespace is any character with the Unicode White_Space property; a `#`
//! starts a comment that runs to the end of the line. Identifiers are
//! alphabetic characters in the Unicode sense, digits and underscores,
//! starting with an alphabetic character or an underscore; number literals
//! are runs of ASCII digits.

use vstd::prelude::*;
use vstd::string::StrSliceExecFns;
use vstd::string::StringExecFns;
use vstd::string::StringSliceAdditionalSpecFns;
use vstd::utf8::encode_scalar;
use vstd::utf8::encode_utf8;

verus! {

/// Tokens of the source language.
#[derive(Debug)]
pub enum Token {
    // Literals
    Int(i64),
    Bool(bool),
    Ident(String),
    // Keywords
    Let,
    If,
    Then,
    Else,
    Secret,
    // Operators
    Plus,
    Minus,
    Star,
    Slash,
    Percent,
    Eq,
    Ne,
    Lt,
    Le,
    Gt,
    Ge,
    And,
    Or,
    Not,
    // Delimiters
    LParen,
    RParen,
    Assign,
    // End of input
    Eof,
}

/// Mathematical model of a token: identifier names are character sequences,
/// integers unbounded.
pub enum TokenV {
    Int(int),
    Bool(bool),
    Ident(Seq<char>),
    Let,
    If,
    Then,
    Else,
    Secret,
    Plus,
    Minus,
    Star,
    Slash,
    Percent,
    Eq,
    Ne,
    Lt,
    Le,
    Gt,
    Ge,
    And,
    Or,
    Not,
    LParen,
    RParen,
    Assign,
    Eof,
}

pub open spec fn token_view(t: Token) -> TokenV {
    match t {
        Token::Int(n) => TokenV::Int(n as int),
        Token::Bool(b) => TokenV::Bool(b),
        Token::Ident(name) => TokenV::Ident(name@),
        Token::Let => TokenV::Let,
        Token::If => TokenV::If,
        Token::Then => TokenV::Then,
        Token::Else => TokenV::Else,
        Token::Secret => TokenV::Secret,
        Token::Plus => TokenV::Plus,
        Token::Minus => TokenV::Minus,
        Token::Star => TokenV::Star,
        Token::Slash => TokenV::Slash,
        Token::Percent => TokenV::Percent,
        Token::Eq => TokenV::Eq,
        Token::Ne => TokenV::Ne,
        Token::Lt => TokenV::Lt,
        Token::Le => TokenV::Le,
        Token::Gt => TokenV::Gt,
        Token::Ge => TokenV::Ge,
        Token::And => TokenV::And,
        Token::Or => TokenV::Or,
        Token::Not => TokenV::Not,
        Token::LParen => TokenV::LParen,
        Token::RParen => TokenV::RParen,
        Token::Assign => TokenV::Assign,
        Token::Eof => TokenV::Eof,
    }
}

impl View for Token {
    type V = TokenV;

    open spec fn view(&self) -> TokenV {
        token_view(*self)
    }
}

impl PartialEq for Token {
    fn eq(&self, other: &Token) -> (r: bool) {
        match self {
            Token::Int(a) => match other {
                Token::Int(b) => *a == *b,
                _ => false,
            },
            Token::Bool(a) => match other {
                Token::Bool(b) => *a == *b,
                _ => false,
            },
            Token::Ident(a) => match other {
                Token::Ident(b) => a.eq(b),
                _ => false,
            },
            Token::Let => matches!(other, Token::Let),
            Token::If => matches!(other, Token::If),
            Token::Then => matches!(other, Token::Then),
            Token::Else => matches!(other, Token::Else),
            Token::Secret => matches!(other, Token::Secret),
            Token::Plus => matches!(other, Token::Plus),
            Token::Minus => matches!(other, Token::Minus),
            Token::Star => matches!(other, Token::Star),
            Token::Slash => matches!(other, Token::Slash),
            Token::Percent => matches!(other, Token::Percent),
            Token::Eq => matches!(other, Token::Eq),
            Token::Ne => matches!(other, Token::Ne),
            Token::Lt => matches!(other, Token::Lt),
            Token::Le => matches!(other, Token::Le),
            Token::Gt => matches!(other, Token::Gt),
            Token::Ge => matches!(other, Token::Ge),
            Token::And => matches!(other, Token::And),
            Token::Or => matches!(other, Token::Or),
            Token::Not => matches!(other, Token::Not),
            Token::LParen => matches!(other, Token::LParen),
            Token::RParen => matches!(other, Token::RParen),
            Token::Assign => matches!(other, Token::Assign),
            Token::Eof => matches!(other, Token::Eof),
        }
    }
}

impl Clone for Token {
    fn clone(&self) -> (r: Token)
        ensures
            r@ == self@,
    {
        match self {
            Token::Int(n) => Token::Int(*n),
            Token::Bool(b) => Token::Bool(*b),
            Token::Ident(name) => Token::Ident(name.clone()),
            Token::Let => Token::Let,
            Token::If => Token::If,
            Token::Then => Token::Then,
            Token::Else => Token::Else,
            Token::Secret => Token::Secret,
            Token::Plus => Token::Plus,
            Token::Minus => Token::Minus,
            Token::Star => Token::Star,
            Token::Slash => Token::Slash,
            Token::Percent => Token::Percent,
            Token::Eq => Token::Eq,
            Token::Ne => Token::Ne,
            Token::Lt => Token::Lt,
            Token::Le => Token::Le,
            Token::Gt => Token::Gt,
            Token::Ge => Token::Ge,
            Token::And => Token::And,
            Token::Or => Token::Or,
            Token::Not => Token::Not,
            Token::LParen => Token::LParen,
            Token::RParen => Token::RParen,
            Token::Assign => Token::Assign,
            Token::Eof => Token::Eof,
        }
    }
}

impl vstd::std_specs::cmp::PartialEqSpecImpl for Token {
    open spec fn obeys_eq_spec() -> bool {
        true
    }

    open spec fn eq_spec(&self, other: &Token) -> bool {
        self@ == other@
    }
}

/// Lexical failures: a character outside the language's alphabet, or an
/// integer literal too large for the token's integer type.
#[derive(Debug)]
pub enum LexError {
    /// The character at this byte offset cannot start a token.
    UnexpectedChar(char, usize),
    /// The number starting at this byte offset does not fit.
    InvalidNumber(usize),
}

/// Mathematical model of a lexical failure.
pub enum LexErrV {
    UnexpectedChar(char, int),
    InvalidNumber(int),
}

impl View for LexError {
    type V = LexErrV;

    open spec fn view(&self) -> LexErrV {
        match self {
            LexError::UnexpectedChar(c, p) => LexErrV::UnexpectedChar(*c, *p as int),
            LexError::InvalidNumber(p) => LexErrV::InvalidNumber(*p as int),
        }
    }
}

pub open spec fn lex_result_view(r: Result<Token, LexError>) -> Result<TokenV, LexErrV> {
    match r {
        Ok(t) => Ok(t@),
        Err(e) => Err(e@),
    }
}

pub open spec fn tokens_view(ts: Seq<Token>) -> Seq<TokenV> {
    ts.map_values(|t: Token| token_view(t))
}

/// Whether the character has the Unicode White_Space property, as
/// char::is_whitespace decides it. The full table takes pages, so the result
/// only carries this name.
pub uninterp spec fn unicode_whitespace(c: char) -> bool;

/// Whether the character is alphabetic in the Unicode sense, as
/// char::is_alphabetic decides it.
pub uninterp spec fn unicode_alphabetic(c: char) -> bool;

/// Whether the character is alphanumeric in the Unicode sense, as
/// char::is_alphanumeric decides it.
pub uninterp spec fn unicode_alphanumeric(c: char) -> bool;

/// An ASCII digit; only these continue a number.
pub open spec fn is_digit_char(c: char) -> bool {
    48 <= c as u32 && c as u32 <= 57
}

/// A character that may start an identifier: alphabetic or underscore.
pub open spec fn is_ident_start_char(c: char) -> bool {
    unicode_alphabetic(c) || c == '_'
}

/// A character that may continue an identifier: alphanumeric or underscore.
pub open spec fn is_ident_char(c: char) -> bool {
    unicode_alphanumeric(c) || c == '_'
}

/// Index of the first character at or after `i` that the whitespace skipper
/// leaves in place; comments run to the end of the line.
pub open spec fn spec_skip_ws(s: Seq<char>, i: int) -> int
    recommends
        0 <= i <= s.len(),
    decreases s.len() - i, 0int,
{
    if i < 0 || i >= s.len() {
        s.len() as int
    } else if unicode_whitespace(s[i]) {
        spec_skip_ws(s, i + 1)
    } else if s[i] == '#' {
        spec_skip_comment(s, i + 1)
    } else {
        i
    }
}

/// Scanning inside a comment: stop at the newline (which the whitespace
/// skipper then consumes) or at the end of input.
pub open spec fn spec_skip_comment(s: Seq<char>, i: int) -> int
    recommends
        0 <= i <= s.len(),
    decreases s.len() - i, 1int,
{
    if i < 0 || i >= s.len() {
        s.len() as int
    } else if s[i] == '\n' {
        spec_skip_ws(s, i)
    } else {
        spec_skip_comment(s, i + 1)
    }
}

proof fn lemma_skip_ws_bounds(s: Seq<char>, i: int)
    requires
        0 <= i <= s.len(),
    ensures
        i <= spec_skip_ws(s, i) <= s.len(),
    decreases s.len() - i, 0int,
{
    if i < s.len() {
        if unicode_whitespace(s[i]) {
            lemma_skip_ws_bounds(s, i + 1);
        } else if s[i] == '#' {
            lemma_skip_comment_bounds(s, i + 1);
        }
    }
}

proof fn lemma_skip_comment_bounds(s: Seq<char>, i: int)
    requires
        0 <= i <= s.len(),
    ensures
        i <= spec_skip_comment(s, i) <= s.len(),
    decreases s.len() - i, 1int,
{
    if i < s.len() {
        if s[i] == '\n' {
            lemma_skip_ws_bounds(s, i);
        } else {
            lemma_skip_comment_bounds(s, i + 1);
        }
    }
}

/// Index of the first character at or after `i` that is not a digit.
pub open spec fn spec_scan_digits(s: Seq<char>, i: int) -> int
    recommends
        0 <= i <= s.len(),
    decreases s.len() - i,
{
    if 0 <= i && i < s.len() && is_digit_char(s[i]) {
        spec_scan_digits(s, i + 1)
    } else {
        i
    }
}

proof fn lemma_scan_digits_bounds(s: Seq<char>, i: int)
    requires
        0 <= i <= s.len(),
    ensures
        i <= spec_scan_digits(s, i) <= s.len(),
    decreases s.len() - i,
{
    if i < s.len() && is_digit_char(s[i]) {
        lemma_scan_digits_bounds(s, i + 1);
    }
}

/// Index of the first character at or after `i` that cannot continue an
/// identifier.
pub open spec fn spec_scan_ident(s: Seq<char>, i: int) -> int
    recommends
        0 <= i <= s.len(),
    decreases s.len() - i,
{
    if 0 <= i && i < s.len() && is_ident_char(s[i]) {
        spec_scan_ident(s, i + 1)
    } else {
        i
    }
}

proof fn lemma_scan_ident_bounds(s: Seq<char>, i: int)
    requires
        0 <= i <= s.len(),
    ensures
        i <= spec_scan_ident(s, i) <= s.len(),
    decreases s.len() - i,
{
    if i < s.len() && is_ident_char(s[i]) {
        lemma_scan_ident_bounds(s, i + 1);
    }
}

pub open spec fn digit_val(c: char) -> int {
    c as u32 - 48
}

/// Value of a digit string, most significant digit first.
pub open spec fn digits_val(digits: Seq<char>) -> int
    decreases digits.len(),
{
    if digits.len() == 0 {
        0
    } else {
        digits_val(digits.drop_last()) * 10 + digit_val(digits.last())
    }
}

/// Reading a number that starts at `start`: all following digits belong to
/// it, and the literal is valid exactly when its value fits the token's
/// integer type. The second component is the position after the number.
pub open spec fn spec_read_number(s: Seq<char>, start: int) -> (Result<TokenV, LexErrV>, int)
    recommends
        0 <= start < s.len(),
        is_digit_char(s[start]),
{
    let end = spec_scan_digits(s, start + 1);
    let v = digits_val(s.subrange(start, end));
    if v <= i64::MAX {
        (Ok(TokenV::Int(v)), end)
    } else {
        (Err(LexErrV::InvalidNumber(byte_pos_of(s, start))), end)
    }
}

/// Keyword recognition: an identifier-shaped word is either one of the fixed
/// keywords or an identifier.
pub open spec fn keyword_or_ident(w: Seq<char>) -> TokenV {
    if w == "let"@ {
        TokenV::Let
    } else if w == "if"@ {
        TokenV::If
    } else if w == "then"@ {
        TokenV::Then
    } else if w == "else"@ {
        TokenV::Else
    } else if w == "secret"@ {
        TokenV::Secret
    } else if w == "true"@ {
        TokenV::Bool(true)
    } else if w == "false"@ {
        TokenV::Bool(false)
    } else if w == "and"@ {
        TokenV::And
    } else if w == "or"@ {
        TokenV::Or
    } else if w == "not"@ {
        TokenV::Not
    } else {
        TokenV::Ident(w)
    }
}

/// The next token of `s` starting at position `i`, together with the
/// position after it. At the end of input the token is `Eof`.
pub open spec fn spec_next_token(s: Seq<char>, i: int) -> (Result<TokenV, LexErrV>, int)
    recommends
        0 <= i <= s.len(),
{
    let j = spec_skip_ws(s, i);
    if j >= s.len() {
        (Ok(TokenV::Eof), j)
    } else {
        let c = s[j];
        if c == '+' {
            (Ok(TokenV::Plus), j + 1)
        } else if c == '-' {
            (Ok(TokenV::Minus), j + 1)
        } else if c == '*' {
            (Ok(TokenV::Star), j + 1)
        } else if c == '/' {
            (Ok(TokenV::Slash), j + 1)
        } else if c == '%' {
            (Ok(TokenV::Percent), j + 1)
        } else if c == '(' {
            (Ok(TokenV::LParen), j + 1)
        } else if c == ')' {
            (Ok(TokenV::RParen), j + 1)
        } else if c == '=' {
            if j + 1 < s.len() && s[j + 1] == '=' {
                (Ok(TokenV::Eq), j + 2)
            } else {
                (Ok(TokenV::Assign), j + 1)
            }
        } else if c == '!' {
            if j + 1 < s.len() && s[j + 1] == '=' {
                (Ok(TokenV::Ne), j + 2)
            } else {
                (Ok(TokenV::Not), j + 1)
            }
        } else if c == '<' {
            if j + 1 < s.len() && s[j + 1] == '=' {
                (Ok(TokenV::Le), j + 2)
            } else {
                (Ok(TokenV::Lt), j + 1)
            }
        } else if c == '>' {
            if j + 1 < s.len() && s[j + 1] == '=' {
                (Ok(TokenV::Ge), j + 2)
            } else {
                (Ok(TokenV::Gt), j + 1)
            }
        } else if c == '&' {
            if j + 1 < s.len() && s[j + 1] == '&' {
                (Ok(TokenV::And), j + 2)
            } else {
                (Err(LexErrV::UnexpectedChar(c, byte_pos_of(s, j))), j + 1)
            }
        } else if c == '|' {
            if j + 1 < s.len() && s[j + 1] == '|' {
                (Ok(TokenV::Or), j + 2)
            } else {
                (Err(LexErrV::UnexpectedChar(c, byte_pos_of(s, j))), j + 1)
            }
        } else if is_digit_char(c) {
            spec_read_number(s, j)
        } else if is_ident_start_char(c) {
            let end = spec_scan_ident(s, j + 1);
            (Ok(keyword_or_ident(s.subrange(j, end))), end)
        } else {
            (Err(LexErrV::UnexpectedChar(c, byte_pos_of(s, j))), j + 1)
        }
    }
}

proof fn lemma_next_token_bounds(s: Seq<char>, i: int)
    requires
        0 <= i <= s.len(),
    ensures
        i <= spec_next_token(s, i).1 <= s.len(),
        spec_next_token(s, i).0 != Ok::<TokenV, LexErrV>(TokenV::Eof) ==> spec_next_token(s, i).1
            > i,
{
    lemma_skip_ws_bounds(s, i);
    let j = spec_skip_ws(s, i);
    if j < s.len() {
        lemma_scan_digits_bounds(s, j + 1);
        lemma_scan_ident_bounds(s, j + 1);
    }
}

/// The token stream of `s` from position `i` on, or the first lexical
/// failure. The `Eof` token ends the stream and is not part of it.
pub open spec fn spec_tokenize_from(s: Seq<char>, i: int) -> Result<Seq<TokenV>, LexErrV>
    decreases s.len() - i,
        when 0 <= i <= s.len()
        via spec_tokenize_from_dec
{
    let (t, p) = spec_next_token(s, i);
    match t {
        Ok(TokenV::Eof) => Ok(Seq::empty()),
        Ok(tok) => match spec_tokenize_from(s, p) {
            Ok(rest) => Ok(seq![tok] + rest),
            Err(e) => Err(e),
        },
        Err(e) => Err(e),
    }
}

#[via_fn]
proof fn spec_tokenize_from_dec(s: Seq<char>, i: int) {
    lemma_next_token_bounds(s, i);
}

/// The token stream of a whole input.
pub open spec fn spec_tokenize(s: Seq<char>) -> Result<Seq<TokenV>, LexErrV> {
    spec_tokenize_from(s, 0)
}

/// The byte offset of character index `i` of `s`: the length of the UTF-8
/// encoding of the characters before it. Failure positions report these
/// offsets, as indices into the input's UTF-8 bytes.
pub open spec fn byte_pos_of(s: Seq<char>, i: int) -> int {
    encode_utf8(s.take(i)).len() as int
}

proof fn lemma_encode_utf8_append(a: Seq<char>, b: Seq<char>)
    ensures
        encode_utf8(a + b) == encode_utf8(a) + encode_utf8(b),
    decreases a.len(),
{
    if a.len() == 0 {
        assert(a + b =~= b);
        assert(encode_utf8(a) + encode_utf8(b) =~= encode_utf8(b));
    } else {
        lemma_encode_utf8_append(a.drop_first(), b);
        assert((a + b).drop_first() =~= a.drop_first() + b);
        assert((a + b)[0] == a[0]);
        assert(encode_scalar(a[0] as u32) + (encode_utf8(a.drop_first()) + encode_utf8(b)) =~= (
        encode_scalar(a[0] as u32) + encode_utf8(a.drop_first())) + encode_utf8(b));
    }
}

proof fn lemma_byte_pos_step(s: Seq<char>, i: int)
    requires
        0 <= i < s.len(),
    ensures
        byte_pos_of(s, i + 1) == byte_pos_of(s, i) + encode_scalar(s[i] as u32).len(),
{
    let single = seq![s[i]];
    assert(s.take(i + 1) =~= s.take(i) + single);
    lemma_encode_utf8_append(s.take(i), single);
    assert(single.drop_first() =~= Seq::<char>::empty());
    assert(encode_scalar(s[i] as u32) + encode_utf8(Seq::<char>::empty()) =~= encode_scalar(
        s[i] as u32,
    ));
    assert(encode_utf8(single) == encode_scalar(s[i] as u32));
}

proof fn lemma_byte_pos_bound(s: Seq<char>, i: int)
    requires
        0 <= i <= s.len(),
    ensures
        0 <= byte_pos_of(s, i) <= encode_utf8(s).len(),
{
    assert(s =~= s.take(i) + s.skip(i));
    lemma_encode_utf8_append(s.take(i), s.skip(i));
}

/// The number of bytes the character occupies in UTF-8, mirroring the
/// encoding's width cases.
fn char_utf8_len(c: char) -> (n: usize)
    ensures
        n as int == encode_scalar(c as u32).len(),
{
    let u = c as u32;
    if u <= 0x7F {
        1
    } else if u <= 0x7FF {
        2
    } else if u <= 0xFFFF && !(0xD800 <= u && u <= 0xDFFF) {
        3
    } else {
        4
    }
}

/// Relies on char::is_whitespace: whether the character has the Unicode
/// White_Space property, a function of the character alone.
#[verifier::external_body]
fn whitespace_char(c: char) -> (b: bool)
    ensures
        b == unicode_whitespace(c),
{
    c.is_whitespace()
}

/// Relies on char::is_alphabetic: whether the character is alphabetic in the
/// Unicode sense, a function of the character alone.
#[verifier::external_body]
fn alphabetic_char(c: char) -> (b: bool)
    ensures
        b == unicode_alphabetic(c),
{
    c.is_alphabetic()
}

/// Relies on char::is_alphanumeric: whether the character is alphanumeric in
/// the Unicode sense, a function of the character alone.
#[verifier::external_body]
fn alphanumeric_char(c: char) -> (b: bool)
    ensures
        b == unicode_alphanumeric(c),
{
    c.is_alphanumeric()
}

fn digit_char(c: char) -> (b: bool)
    ensures
        b == is_digit_char(c),
{
    let u = c as u32;
    48 <= u && u <= 57
}

fn ident_start_char(c: char) -> (b: bool)
    ensures
        b == is_ident_start_char(c),
{
    alphabetic_char(c) || c == '_'
}

fn ident_char(c: char) -> (b: bool)
    ensures
        b == is_ident_char(c),
{
    alphanumeric_char(c) || c == '_'
}

/// Compare two string slices by their character content.
fn str_eq(a: &str, b: &str) -> (r: bool)
    ensures
        r == (a@ == b@),
{
    let sa = String::from_str(a);
    let sb = String::from_str(b);
    sa.eq(&sb)
}

/// The tokenizer. It holds its own copy of the input and a cursor that
/// tracks both the character index and the byte offset.
pub struct Lexer {
    input: String,
    len: usize,
    pos: usize,
    bpos: usize,
    byte_len: usize,
}

impl Lexer {
    /// The input text being tokenized.
    pub closed spec fn text(&self) -> Seq<char> {
        self.input@
    }

    /// The cursor, as a character index into the input.
    pub closed spec fn position(&self) -> int {
        self.pos as int
    }

    /// Internal consistency: the cached lengths are the input's character
    /// and byte lengths, the cursor never passes the end, and the byte
    /// cursor is the byte offset of the character cursor.
    pub closed spec fn wf(&self) -> bool {
        self.len as nat == self.input@.len() && self.pos <= self.len && self.bpos as int
            == byte_pos_of(self.input@, self.pos as int) && self.byte_len as int == encode_utf8(
            self.input@,
        ).len()
    }

    /// Build a tokenizer over the given input, with the cursor at the start.
    pub fn new(input: &str) -> (lexer: Lexer)
        ensures
            lexer.wf(),
            lexer.text() == input@,
            lexer.position() == 0,
    {
        let owned = String::from_str(input);
        let len = owned.as_str().unicode_len();
        let byte_len = owned.as_str().as_bytes().len();
        proof {
            assert(owned@.take(0) =~= Seq::<char>::empty());
            assert(byte_pos_of(owned@, 0) == 0);
        }
        Lexer { input: owned, len, pos: 0, bpos: 0, byte_len }
    }

    fn peek(&self) -> (r: Option<char>)
        requires
            self.wf(),
        ensures
            r == (if self.position() < self.text().len() {
                Some(self.text()[self.position()])
            } else {
                None::<char>
            }),
    {
        if self.pos < self.len {
            Some(self.input.as_str().get_char(self.pos))
        } else {
            None
        }
    }

    fn advance(&mut self) -> (r: Option<(usize, char)>)
        requires
            old(self).wf(),
        ensures
            final(self).wf(),
            final(self).input == old(self).input,
            old(self).position() < old(self).text().len() ==> r == Some(
                (old(self).pos, old(self).text()[old(self).position()]),
            ) && final(self).position() == old(self).position() + 1,
            old(self).position() >= old(self).text().len() ==> r == None::<(usize, char)>
                && final(self).position() == old(self).position(),
    {
        if self.pos < self.len {
            let c = self.input.as_str().get_char(self.pos);
            let p = self.pos;
            proof {
                lemma_byte_pos_step(self.input@, p as int);
                lemma_byte_pos_bound(self.input@, p as int + 1);
            }
            self.pos = p + 1;
            let cl = char_utf8_len(c);
            self.bpos = self.bpos + cl;
            Some((p, c))
        } else {
            None
        }
    }

    fn skip_whitespace(&mut self)
        requires
            old(self).wf(),
        ensures
            final(self).wf(),
            final(self).input == old(self).input,
            final(self).position() == spec_skip_ws(old(self).text(), old(self).position()),
    {
        let ghost s = self.input@;
        let ghost p0 = self.pos as int;
        loop
            invariant
                self.wf(),
                self.input@ == s,
                self.input == old(self).input,
                spec_skip_ws(s, p0) == spec_skip_ws(s, self.pos as int),
            ensures
                self.wf(),
                self.input@ == s,
                self.input == old(self).input,
                self.pos as int == spec_skip_ws(s, p0),
            decreases s.len() - self.pos,
        {
            match self.peek() {
                None => {
                    break ;
                },
                Some(c) => {
                    if whitespace_char(c) {
                        self.advance();
                    } else if c == '#' {
                        self.advance();
                        let ghost pc = self.pos as int;
                        loop
                            invariant
                                self.wf(),
                                self.input@ == s,
                                self.input == old(self).input,
                                pc <= self.pos,
                                spec_skip_ws(s, p0) == spec_skip_comment(s, self.pos as int),
                            ensures
                                self.wf(),
                                self.input@ == s,
                                self.input == old(self).input,
                                pc <= self.pos,
                                spec_skip_ws(s, p0) == spec_skip_ws(s, self.pos as int),
                            decreases s.len() - self.pos,
                        {
                            match self.peek() {
                                None => {
                                    break ;
                                },
                                Some(c2) => {
                                    if c2 == '\n' {
                                        break ;
                                    }
                                    self.advance();
                                },
                            }
                        }
                    } else {
                        break ;
                    }
                },
            }
        }
    }

    fn read_number(&mut self, start: usize) -> (r: Result<Token, LexError>)
        requires
            old(self).wf(),
            start < old(self).text().len(),
            old(self).position() == start + 1,
            is_digit_char(old(self).text()[start as int]),
        ensures
            final(self).wf(),
            final(self).input == old(self).input,
            lex_result_view(r) == spec_read_number(old(self).text(), start as int).0,
            final(self).position() == spec_read_number(old(self).text(), start as int).1,
    {
        let ghost s = self.input@;
        proof {
            lemma_byte_pos_step(s, start as int);
            assert(encode_scalar(s[start as int] as u32).len() == 1);
        }
        let bstart = self.bpos - 1;
        let first = self.input.as_str().get_char(start);
        let mut val: i64 = digit_to_val(first);
        let mut overflowed = false;
        proof {
            let w = s.subrange(start as int, start + 1);
            assert(w =~= seq![s[start as int]]);
            assert(w.drop_last() =~= Seq::<char>::empty());
            assert(digits_val(Seq::<char>::empty()) == 0);
            assert(digits_val(w) == digit_val(s[start as int]));
        }
        loop
            invariant
                self.wf(),
                self.input@ == s,
                self.input == old(self).input,
                start + 1 <= self.pos <= s.len(),
                spec_scan_digits(s, start + 1) == spec_scan_digits(s, self.pos as int),
                !overflowed ==> 0 <= val && val as int == digits_val(
                    s.subrange(start as int, self.pos as int),
                ),
                overflowed ==> digits_val(s.subrange(start as int, self.pos as int)) > i64::MAX,
            ensures
                self.wf(),
                self.input@ == s,
                self.input == old(self).input,
                start + 1 <= self.pos <= s.len(),
                self.pos as int == spec_scan_digits(s, start + 1),
                !overflowed ==> 0 <= val && val as int == digits_val(
                    s.subrange(start as int, self.pos as int),
                ),
                overflowed ==> digits_val(s.subrange(start as int, self.pos as int)) > i64::MAX,
            decreases s.len() - self.pos,
        {
            match self.peek() {
                None => {
                    break ;
                },
                Some(c) => {
                    if digit_char(c) {
                        let ghost p = self.pos as int;
                        self.advance();
                        let d = digit_to_val(c);
                        proof {
                            let pre = s.subrange(start as int, p);
                            let post = s.subrange(start as int, p + 1);
                            assert(post.drop_last() =~= pre);
                            assert(post.last() == s[p]);
                            assert(digits_val(post) == digits_val(pre) * 10 + digit_val(s[p]));
                        }
                        if !overflowed {
                            if val <= (i64::MAX - d) / 10 {
                                proof {
                                    vstd::arithmetic::div_mod::lemma_fundamental_div_mod(
                                        i64::MAX - d,
                                        10,
                                    );
                                }
                                val = val * 10 + d;
                            } else {
                                proof {
                                    vstd::arithmetic::div_mod::lemma_fundamental_div_mod(
                                        i64::MAX - d,
                                        10,
                                    );
                                }
                                overflowed = true;
                            }
                        }
                    } else {
                        break ;
                    }
                },
            }
        }
        if overflowed {
            Err(LexError::InvalidNumber(bstart))
        } else {
            Ok(Token::Int(val))
        }
    }

    fn read_ident(&mut self, start: usize) -> (r: Token)
        requires
            old(self).wf(),
            start < old(self).text().len(),
            old(self).position() == start + 1,
        ensures
            final(self).wf(),
            final(self).input == old(self).input,
            final(self).position() == spec_scan_ident(old(self).text(), start + 1),
            r@ == keyword_or_ident(
                old(self).text().subrange(start as int, spec_scan_ident(old(self).text(), start + 1)),
            ),
    {
        let ghost s = self.input@;
        loop
            invariant
                self.wf(),
                self.input@ == s,
                self.input == old(self).input,
                start + 1 <= self.pos <= s.len(),
                spec_scan_ident(s, start + 1) == spec_scan_ident(s, self.pos as int),
            ensures
                self.wf(),
                self.input@ == s,
                self.input == old(self).input,
                start + 1 <= self.pos <= s.len(),
                self.pos as int == spec_scan_ident(s, start + 1),
            decreases s.len() - self.pos,
        {
            match self.peek() {
                None => {
                    break ;
                },
                Some(c) => {
                    if ident_char(c) {
                        self.advance();
                    } else {
                        break ;
                    }
                },
            }
        }
        let end = self.pos;
        let word = self.input.as_str().substring_char(start, end);
        if str_eq(word, "let") {
            Token::Let
        } else if str_eq(word, "if") {
            Token::If
        } else if str_eq(word, "then") {
            Token::Then
        } else if str_eq(word, "else") {
            Token::Else
        } else if str_eq(word, "secret") {
            Token::Secret
        } else if str_eq(word, "true") {
            Token::Bool(true)
        } else if str_eq(word, "false") {
            Token::Bool(false)
        } else if str_eq(word, "and") {
            Token::And
        } else if str_eq(word, "or") {
            Token::Or
        } else if str_eq(word, "not") {
            Token::Not
        } else {
            Token::Ident(String::from_str(word))
        }
    }

    /// Produce the next token, advancing the cursor past it. At the end of
    /// input this returns the `Eof` token.
    pub fn next_token(&mut self) -> (r: Result<Token, LexError>)
        requires
            old(self).wf(),
        ensures
            final(self).wf(),
            final(self).text() == old(self).text(),
            lex_result_view(r) == spec_next_token(old(self).text(), old(self).position()).0,
            final(self).position() == spec_next_token(old(self).text(), old(self).position()).1,
    {
        self.skip_whitespace();
        let ghost s = self.input@;
        let bj = self.bpos;
        match self.advance() {
            None => Ok(Token::Eof),
            Some((pos, c)) => {
                if c == '+' {
                    Ok(Token::Plus)
                } else if c == '-' {
                    Ok(Token::Minus)
                } else if c == '*' {
                    Ok(Token::Star)
                } else if c == '/' {
                    Ok(Token::Slash)
                } else if c == '%' {
                    Ok(Token::Percent)
                } else if c == '(' {
                    Ok(Token::LParen)
                } else if c == ')' {
                    Ok(Token::RParen)
                } else if c == '=' {
                    if self.next_char_is('=') {
                        self.advance();
                        Ok(Token::Eq)
                    } else {
                        Ok(Token::Assign)
                    }
                } else if c == '!' {
                    if self.next_char_is('=') {
                        self.advance();
                        Ok(Token::Ne)
                    } else {
                        Ok(Token::Not)
                    }
                } else if c == '<' {
                    if self.next_char_is('=') {
                        self.advance();
                        Ok(Token::Le)
                    } else {
                        Ok(Token::Lt)
                    }
                } else if c == '>' {
                    if self.next_char_is('=') {
                        self.advance();
                        Ok(Token::Ge)
                    } else {
                        Ok(Token::Gt)
                    }
                } else if c == '&' {
                    if self.next_char_is('&') {
                        self.advance();
                        Ok(Token::And)
                    } else {
                        Err(LexError::UnexpectedChar(c, bj))
                    }
                } else if c == '|' {
                    if self.next_char_is('|') {
                        self.advance();
                        Ok(Token::Or)
                    } else {
                        Err(LexError::UnexpectedChar(c, bj))
                    }
                } else if digit_char(c) {
                    self.read_number(pos)
                } else if ident_start_char(c) {
                    Ok(self.read_ident(pos))
                } else {
                    Err(LexError::UnexpectedChar(c, bj))
                }
            },
        }
    }

    fn next_char_is(&self, expected: char) -> (r: bool)
        requires
            self.wf(),
        ensures
            r == (self.position() < self.text().len() && self.text()[self.position()] == expected),
    {
        match self.peek() {
            Some(c) => c == expected,
            None => false,
        }
    }

    /// Tokenize the rest of the input, stopping before the `Eof` token, or
    /// report the first lexical failure.
    pub fn tokenize(&mut self) -> (r: Result<Vec<Token>, LexError>)
        requires
            old(self).wf(),
        ensures
            final(self).wf(),
            match r {
                Ok(toks) => spec_tokenize_from(old(self).text(), old(self).position()) == Ok::<
                    Seq<TokenV>,
                    LexErrV,
                >(tokens_view(toks@)),
                Err(e) => spec_tokenize_from(old(self).text(), old(self).position()) == Err::<
                    Seq<TokenV>,
                    LexErrV,
                >(e@),
            },
    {
        let ghost s = self.input@;
        let ghost p0 = self.pos as int;
        let mut out: Vec<Token> = Vec::new();
        loop
            invariant
                self.wf(),
                self.input@ == s,
                s == old(self).text(),
                p0 == old(self).position(),
                match spec_tokenize_from(s, self.pos as int) {
                    Ok(rest) => spec_tokenize_from(s, p0) == Ok::<Seq<TokenV>, LexErrV>(
                        tokens_view(out@) + rest,
                    ),
                    Err(e) => spec_tokenize_from(s, p0) == Err::<Seq<TokenV>, LexErrV>(e),
                },
            decreases s.len() - self.pos,
        {
            let ghost p_before = self.pos as int;
            proof {
                lemma_next_token_bounds(s, p_before);
            }
            match self.next_token() {
                Err(e) => {
                    return Err(e);
                },
                Ok(tok) => {
                    let is_eof = matches!(tok, Token::Eof);
                    if is_eof {
                        proof {
                            assert(tokens_view(out@) + Seq::<TokenV>::empty() =~= tokens_view(
                                out@,
                            ));
                        }
                        return Ok(out);
                    }
                    proof {
                        let rest0 = spec_tokenize_from(s, p_before);
                        let restn = spec_tokenize_from(s, self.pos as int);
                        if restn is Ok {
                            assert(tokens_view(out@.push(tok)) =~= tokens_view(out@).push(tok@));
                            assert(tokens_view(out@) + (seq![tok@] + restn->Ok_0) =~= tokens_view(
                                out@.push(tok),
                            ) + restn->Ok_0);
                        }
                    }
                    out.push(tok);
                },
            }
        }
    }
}

fn digit_to_val(c: char) -> (d: i64)
    requires
        is_digit_char(c),
    ensures
        0 <= d <= 9,
        d as int == digit_val(c),
{
    let u = c as u32;
    (u - 48) as i64
}

} // verus!

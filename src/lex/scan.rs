//! Character classes and scanning positions shared by both lexers.

use crate::lex::token::{is_reserved_word, reserved, Token};
use crate::text::push_char;
use vstd::prelude::*;

verus! {

/// The character at position `i`, if there is one.
pub open spec fn char_at(s: Seq<char>, i: nat) -> Option<char> {
    if i < s.len() {
        Some(s[i as int])
    } else {
        None
    }
}

pub open spec fn is_digit(c: char) -> bool {
    '0' <= c <= '9'
}

pub open spec fn is_alpha(c: char) -> bool {
    ('a' <= c <= 'z') || ('A' <= c <= 'Z')
}

/// A character that can start a word.
pub open spec fn is_word_start(c: char) -> bool {
    is_alpha(c) || c == '_'
}

/// ASCII whitespace: space, tab, line feed, form feed and carriage return.
pub open spec fn is_space(c: char) -> bool {
    c == ' ' || c == '\t' || c == '\n' || c == '\x0C' || c == '\r'
}

/// The characters that a token other than a number or a word starts with.
pub open spec fn is_symbol(c: char) -> bool {
    c == '-' || c == ',' || c == ';' || c == ':' || c == '.' || c == '*' || c == '+' || c == '/'
        || c == '~' || c == '!' || c == '=' || c == '<' || c == '>' || c == '%' || c == '&' || c
        == '|' || c == '{' || c == '}' || c == '(' || c == ')' || c == '[' || c == ']'
}

pub fn is_symbol_char(c: char) -> (r: bool)
    ensures
        r == is_symbol(c),
{
    c == '-' || c == ',' || c == ';' || c == ':' || c == '.' || c == '*' || c == '+' || c == '/'
        || c == '~' || c == '!' || c == '=' || c == '<' || c == '>' || c == '%' || c == '&' || c
        == '|' || c == '{' || c == '}' || c == '(' || c == ')' || c == '[' || c == ']'
}

/// The classes of characters that make up runs: digits, word characters
/// (letters, digits and `_`), and whitespace.
#[derive(Clone, Copy)]
pub enum CharClass {
    Digit,
    Word,
    Space,
}

pub open spec fn in_class(c: char, k: CharClass) -> bool {
    match k {
        CharClass::Digit => is_digit(c),
        CharClass::Word => is_word_start(c) || is_digit(c),
        CharClass::Space => is_space(c),
    }
}

pub fn is_in_class(c: char, k: CharClass) -> (r: bool)
    ensures
        r == in_class(c, k),
{
    match k {
        CharClass::Digit => '0' <= c && c <= '9',
        CharClass::Word => ('a' <= c && c <= 'z') || ('A' <= c && c <= 'Z') || c == '_' || ('0' <= c
            && c <= '9'),
        CharClass::Space => c == ' ' || c == '\t' || c == '\n' || c == '\x0C' || c == '\r',
    }
}

/// The end of the run of class `k` that starts at `i`.
pub open spec fn run_end(s: Seq<char>, i: nat, k: CharClass) -> nat
    decreases s.len() - i,
{
    if i < s.len() && in_class(s[i as int], k) {
        run_end(s, i + 1, k)
    } else {
        i
    }
}

pub proof fn lemma_run_end_bounds(s: Seq<char>, i: nat, k: CharClass)
    requires
        i <= s.len(),
    ensures
        i <= run_end(s, i, k) <= s.len(),
    decreases s.len() - i,
{
    if i < s.len() && in_class(s[i as int], k) {
        lemma_run_end_bounds(s, i + 1, k);
    }
}

/// A number whose first digit is at `i` ends after it and within the text.
pub proof fn lemma_number_end_bounds(s: Seq<char>, i: nat)
    requires
        i < s.len(),
        is_digit(s[i as int]),
    ensures
        i < number_end(s, i) <= s.len(),
{
    lemma_run_end_bounds(s, i + 1, CharClass::Digit);
    let j = run_end(s, i, CharClass::Digit);
    if j < s.len() && s[j as int] == '.' {
        lemma_run_end_bounds(s, j + 1, CharClass::Digit);
    }
}

/// The end of the number whose digits start at `i`: digits, and when a dot
/// follows them, the dot and the digits after it.
pub open spec fn number_end(s: Seq<char>, i: nat) -> nat {
    let j = run_end(s, i, CharClass::Digit);
    if j < s.len() && s[j as int] == '.' {
        run_end(s, j + 1, CharClass::Digit)
    } else {
        j
    }
}

/// Whether the number whose digits start at `i` has a dot.
pub open spec fn number_is_float(s: Seq<char>, i: nat) -> bool {
    let j = run_end(s, i, CharClass::Digit);
    j < s.len() && s[j as int] == '.'
}

/// What a scanning step recognised: a token without a lexeme, a number, or
/// a word. A number or a word carries the characters it was scanned from.
pub enum Scanned {
    Fixed(Token),
    Number { float: bool },
    Word,
}

/// Token `t` is what `k` stands for when scanned from `lexeme`; a word is a
/// reserved word or an identifier according to its text.
pub open spec fn denotes(t: Token, k: Scanned, lexeme: Seq<char>) -> bool {
    match k {
        Scanned::Fixed(u) => t == u,
        Scanned::Number { float } => if float {
            t matches Token::Float(x) && x@ == lexeme
        } else {
            t matches Token::Integer(x) && x@ == lexeme
        },
        Scanned::Word => if reserved(lexeme) {
            t matches Token::ReservedWord(x) && x@ == lexeme
        } else {
            t matches Token::Identifier(x) && x@ == lexeme
        },
    }
}

/// A step that recognised the token `t` and ends at `q`.
pub open spec fn fixed(t: Token, q: nat) -> (Option<Scanned>, nat) {
    (Some(Scanned::Fixed(t)), q)
}

/// The step for a dot at `p`: one, two or three dots in a row.
pub open spec fn dots(s: Seq<char>, p: nat) -> (Option<Scanned>, nat) {
    if char_at(s, p + 1) == Some('.') {
        if char_at(s, p + 2) == Some('.') {
            fixed(Token::TripleDots, p + 3)
        } else {
            fixed(Token::DoubleDots, p + 2)
        }
    } else {
        fixed(Token::Dot, p + 1)
    }
}

/// `r` is the result of a step that recognised `k` from `lexeme`: nothing
/// when the step recognised nothing.
pub open spec fn yields(r: Option<Token>, k: Option<Scanned>, lexeme: Seq<char>) -> bool {
    match k {
        None => r is None,
        Some(k) => r matches Some(t) && denotes(t, k, lexeme),
    }
}

/// The operator tokens, plain and followed by `=`, of an operator character
/// that has no longer forms.
pub open spec fn simple_op(c: char) -> Option<(Token, Token)> {
    if c == '*' {
        Some((Token::Asterisk, Token::AsteriskAssign))
    } else if c == '+' {
        Some((Token::Plus, Token::PlusAssign))
    } else if c == '/' {
        Some((Token::Divide, Token::DivideAssign))
    } else if c == '~' {
        Some((Token::Tilde, Token::TildeAssign))
    } else if c == '!' {
        Some((Token::ExclamationMark, Token::NotEqual))
    } else if c == '<' {
        Some((Token::LessThan, Token::LessEqual))
    } else if c == '>' {
        Some((Token::GreaterThan, Token::GreaterEqual))
    } else if c == '%' {
        Some((Token::Percetange, Token::PercetangeAssign))
    } else {
        None
    }
}

pub fn simple_op_tokens(c: char) -> (r: Option<(Token, Token)>)
    ensures
        r == simple_op(c),
{
    if c == '*' {
        Some((Token::Asterisk, Token::AsteriskAssign))
    } else if c == '+' {
        Some((Token::Plus, Token::PlusAssign))
    } else if c == '/' {
        Some((Token::Divide, Token::DivideAssign))
    } else if c == '~' {
        Some((Token::Tilde, Token::TildeAssign))
    } else if c == '!' {
        Some((Token::ExclamationMark, Token::NotEqual))
    } else if c == '<' {
        Some((Token::LessThan, Token::LessEqual))
    } else if c == '>' {
        Some((Token::GreaterThan, Token::GreaterEqual))
    } else if c == '%' {
        Some((Token::Percetange, Token::PercetangeAssign))
    } else {
        None
    }
}

/// The token of a bracket or separator character that stands alone.
pub open spec fn single_char(c: char) -> Option<Token> {
    if c == ',' {
        Some(Token::Coma)
    } else if c == ';' {
        Some(Token::SemiColon)
    } else if c == '{' {
        Some(Token::LeftBrace)
    } else if c == '}' {
        Some(Token::RightBrace)
    } else if c == '(' {
        Some(Token::LeftParenthesis)
    } else if c == ')' {
        Some(Token::RightParenthesis)
    } else if c == '[' {
        Some(Token::LeftBracket)
    } else if c == ']' {
        Some(Token::RightBracket)
    } else {
        None
    }
}

pub fn single_char_token(c: char) -> (r: Option<Token>)
    ensures
        r == single_char(c),
{
    if c == ',' {
        Some(Token::Coma)
    } else if c == ';' {
        Some(Token::SemiColon)
    } else if c == '{' {
        Some(Token::LeftBrace)
    } else if c == '}' {
        Some(Token::RightBrace)
    } else if c == '(' {
        Some(Token::LeftParenthesis)
    } else if c == ')' {
        Some(Token::RightParenthesis)
    } else if c == '[' {
        Some(Token::LeftBracket)
    } else if c == ']' {
        Some(Token::RightBracket)
    } else {
        None
    }
}

/// The position where the run of class `k` that starts at `i` ends.
pub fn scan_run(s: &Vec<char>, i: usize, k: CharClass) -> (r: usize)
    requires
        i <= s@.len(),
    ensures
        r == run_end(s@, i as nat, k),
        i <= r <= s@.len(),
{
    proof {
        lemma_run_end_bounds(s@, i as nat, k);
    }
    let mut j = i;
    while j < s.len() && is_in_class(s[j], k)
        invariant
            i <= j <= s@.len(),
            run_end(s@, j as nat, k) == run_end(s@, i as nat, k),
        decreases s@.len() - j,
    {
        j = j + 1;
    }
    j
}

/// The characters of `s` from `from` up to `to`, as a string.
pub fn text_of(s: &Vec<char>, from: usize, to: usize) -> (r: String)
    requires
        from <= to <= s@.len(),
    ensures
        r@ == s@.subrange(from as int, to as int),
{
    let mut out = String::new();
    let mut j = from;
    while j < to
        invariant
            from <= j <= to <= s@.len(),
            out@ == s@.subrange(from as int, j as int),
        decreases to - j,
    {
        push_char(&mut out, s[j]);
        j = j + 1;
        assert(out@ =~= s@.subrange(from as int, j as int));
    }
    out
}

/// Scans the number whose digits start at `body`; its lexeme starts at
/// `start`, which is `body` or the position of a sign before it.
pub fn scan_number(s: &Vec<char>, start: usize, body: usize) -> (r: (Token, usize))
    requires
        start <= body <= s@.len(),
    ensures
        r.1 == number_end(s@, body as nat),
        body <= r.1 <= s@.len(),
        denotes(
            r.0,
            Scanned::Number { float: number_is_float(s@, body as nat) },
            s@.subrange(start as int, r.1 as int),
        ),
{
    let j = scan_run(s, body, CharClass::Digit);
    let float = j < s.len() && s[j] == '.';
    let end = if float {
        scan_run(s, j + 1, CharClass::Digit)
    } else {
        j
    };
    let lexeme = text_of(s, start, end);
    if float {
        (Token::Float(lexeme), end)
    } else {
        (Token::Integer(lexeme), end)
    }
}

/// Scans the word that starts at `start`.
pub fn scan_word(s: &Vec<char>, start: usize) -> (r: (Token, usize))
    requires
        start <= s@.len(),
    ensures
        r.1 == run_end(s@, start as nat, CharClass::Word),
        start <= r.1 <= s@.len(),
        denotes(r.0, Scanned::Word, s@.subrange(start as int, r.1 as int)),
{
    let end = scan_run(s, start, CharClass::Word);
    let lexeme = text_of(s, start, end);
    if is_reserved_word(lexeme.as_str()) {
        (Token::ReservedWord(lexeme), end)
    } else {
        (Token::Identifier(lexeme), end)
    }
}

} // verus!

use ez_lang::error::SyntaxError;
use ez_lang::lex::token::{is_reserved_word, Token};

#[test]
fn syntax_error_message() {
    let err = SyntaxError::new(
        Token::Identifier("foo".to_owned()),
        &[Token::RightParenthesis, Token::Coma],
    );
    assert_eq!(err.message(), "expected ')', ',',\ngot foo");
}

#[test]
fn syntax_error_without_expectations() {
    let err = SyntaxError::new(Token::EndOfFile, &[]);
    assert_eq!(err.message(), "expected \ngot EOF");
    assert!(err.expected.is_empty());
}

#[test]
fn token_texts() {
    assert_eq!(Token::DoubleVerticalBarAssign.to_string(), "||=");
    assert_eq!(Token::Integer("-10".to_owned()).to_string(), "-10");
    assert!(Token::Space.is_whitespace());
    assert!(!Token::Plus.is_whitespace());
}

#[test]
fn reserved_words() {
    assert!(is_reserved_word("let"));
    assert!(is_reserved_word("_"));
    assert!(is_reserved_word("false"));
    assert!(!is_reserved_word("new"));
    assert!(!is_reserved_word("lets"));
}

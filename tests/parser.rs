use ez_lang::lex::token::Token;
use ez_lang::syn::parser::{Calc, Parser};

fn value(c: &Calc) -> f64 {
    match c {
        Calc::Number(Token::Float(s)) | Calc::Number(Token::Integer(s)) => s.parse().unwrap(),
        Calc::Number(_) => panic!("not a number"),
        Calc::Add(a, b) => value(a) + value(b),
        Calc::Sub(a, b) => value(a) - value(b),
        Calc::Mul(a, b) => value(a) * value(b),
        Calc::Div(a, b) => value(a) / value(b),
        Calc::Max(a, b) => value(a).max(value(b)),
    }
}

#[test]
fn scan_test1() {
    let expr = "(3+2)*5";
    let arithm_parser = Parser::new(expr);
    assert_eq!(value(&arithm_parser.parse().unwrap()), 25.0);
}

#[test]
fn scan_test2() {
    let expr = "((((3-2)+10)*5) - 10) * 2";
    let arithm_parser = Parser::new(expr);
    assert_eq!(value(&arithm_parser.parse().unwrap()), 90.0);
}

#[test]
fn scan_test3() {
    let expr = "(3+2)*(5-1)";
    let arithm_parser = Parser::new(expr);
    assert_eq!(value(&arithm_parser.parse().unwrap()), 20.0);
}

#[test]
fn scan_test4_should_fail() {
    let expr = "(3+2)51";
    let arithm_parser = Parser::new(expr);
    assert!(arithm_parser.parse().is_err());
}

#[test]
fn trailing_token_is_reported() {
    let err = Parser::new("(3+2)51").parse().unwrap_err();
    assert_eq!(err.got, Token::Integer("51".to_owned()));
    assert_eq!(
        err.expected,
        vec![Token::Plus, Token::Minus, Token::Asterisk, Token::Divide]
    );
}

#[test]
fn max_and_precedence() {
    let c = Parser::new("max(1.5, 2) * 3 - 4 / 2").parse().unwrap();
    assert_eq!(value(&c), 4.0);
    let left_assoc = Parser::new("10 - 4 - 3").parse().unwrap();
    assert_eq!(value(&left_assoc), 3.0);
}

#[test]
fn parse_errors() {
    let err = Parser::new("min(1, 2)").parse().unwrap_err();
    assert_eq!(err.got, Token::Identifier("min".to_owned()));
    assert_eq!(err.expected, vec![Token::Identifier("max".to_owned())]);

    let err = Parser::new("(1 + 2").parse().unwrap_err();
    assert_eq!(err.got, Token::EndOfFile);
    assert_eq!(err.expected, vec![Token::RightParenthesis]);

    let err = Parser::new("max 1").parse().unwrap_err();
    assert_eq!(err.got, Token::Integer("1".to_owned()));
    assert_eq!(err.expected, vec![Token::LeftParenthesis]);

    let err = Parser::new("max(1 2)").parse().unwrap_err();
    assert_eq!(err.got, Token::Integer("2".to_owned()));
    assert_eq!(err.expected, vec![Token::Coma]);

    let err = Parser::new("").parse().unwrap_err();
    assert_eq!(err.got, Token::EndOfFile);
    assert_eq!(err.expected.len(), 8);
    assert_eq!(err.expected[6], Token::Float(String::new()));

    let err = Parser::new("3 * ;").parse().unwrap_err();
    assert_eq!(err.got, Token::SemiColon);
    assert_eq!(err.message(), "expected '+', '-', '*', '/', '(', ')', '', '',\ngot ;");
}

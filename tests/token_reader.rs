use ez_lang::lex::token::Token;
use ez_lang::lexer::TokenReader;

#[test]
fn read_op_tokens() {
    let contents = r#"
            + 
            += 
            - 
            -= 
            * 
            *= 
            / 
            /= 
            % 
            %= 
            & 
            &= 
            && 
            &&= 
            | 
            |= 
            || 
            ||= 
            ~ 
            ~= 
            = 
            == 
            ! 
            != 
            < 
            <= 
            > 
            >=
        "#;

    let mut token_reader = TokenReader::new(contents);
    assert_eq!(token_reader.next(), Some(Token::Plus));
    assert_eq!(token_reader.next(), Some(Token::PlusAssign));
    assert_eq!(token_reader.next(), Some(Token::Minus));
    assert_eq!(token_reader.next(), Some(Token::MinusAssign));
    assert_eq!(token_reader.next(), Some(Token::Asterisk));
    assert_eq!(token_reader.next(), Some(Token::AsteriskAssign));
    assert_eq!(token_reader.next(), Some(Token::Divide));
    assert_eq!(token_reader.next(), Some(Token::DivideAssign));
    assert_eq!(token_reader.next(), Some(Token::Percetange));
    assert_eq!(token_reader.next(), Some(Token::PercetangeAssign));
    assert_eq!(token_reader.next(), Some(Token::Ampersand));
    assert_eq!(token_reader.next(), Some(Token::AmpersandAssign));
    assert_eq!(token_reader.next(), Some(Token::DoubleAmpersand));
    assert_eq!(token_reader.next(), Some(Token::DoubleAmpersandAssign));
    assert_eq!(token_reader.next(), Some(Token::VerticalBar));
    assert_eq!(token_reader.next(), Some(Token::VerticalBarAssign));
    assert_eq!(token_reader.next(), Some(Token::DoubleVerticalBar));
    assert_eq!(token_reader.next(), Some(Token::DoubleVerticalBarAssign));
    assert_eq!(token_reader.next(), Some(Token::Tilde));
    assert_eq!(token_reader.next(), Some(Token::TildeAssign));
    assert_eq!(token_reader.next(), Some(Token::Assign));
    assert_eq!(token_reader.next(), Some(Token::Equal));
    assert_eq!(token_reader.next(), Some(Token::ExclamationMark));
    assert_eq!(token_reader.next(), Some(Token::NotEqual));
    assert_eq!(token_reader.next(), Some(Token::LessThan));
    assert_eq!(token_reader.next(), Some(Token::LessEqual));
    assert_eq!(token_reader.next(), Some(Token::GreaterThan));
    assert_eq!(token_reader.next(), Some(Token::GreaterEqual));
    assert_eq!(token_reader.next(), None);
}

#[test]
fn read_numbers() {
    let contents = "-323.2 22 -10 1222.";
    let mut token_reader = TokenReader::new(contents);

    assert_eq!(token_reader.next(), Some(Token::Float("-323.2".to_owned())));
    assert_eq!(token_reader.next(), Some(Token::Integer("22".to_owned())));
    assert_eq!(token_reader.next(), Some(Token::Integer("-10".to_owned())));
    assert_eq!(token_reader.next(), Some(Token::Float("1222.".to_owned())));
    assert_eq!(token_reader.next(), None);
}

#[test]
fn read_words() {
    let contents = "contents let main _ var1 var2 var_33";
    let mut token_reader = TokenReader::new(contents);

    assert_eq!(token_reader.next(), Some(Token::Identifier("contents".to_owned())));
    assert_eq!(token_reader.next(), Some(Token::ReservedWord("let".to_owned())));
    assert_eq!(token_reader.next(), Some(Token::ReservedWord("main".to_owned())));
    assert_eq!(token_reader.next(), Some(Token::ReservedWord("_".to_owned())));
    assert_eq!(token_reader.next(), Some(Token::Identifier("var1".to_owned())));
    assert_eq!(token_reader.next(), Some(Token::Identifier("var2".to_owned())));
    assert_eq!(token_reader.next(), Some(Token::Identifier("var_33".to_owned())));
    assert_eq!(token_reader.next(), None);
}

#[test]
fn read_combination() {
    let contents = "let mut token_reader = TokenReader::new(Cursor::new(contents));";
    let mut token_reader = TokenReader::new(contents);

    assert_eq!(token_reader.next(), Some(Token::ReservedWord("let".to_owned())));
    assert_eq!(token_reader.next(), Some(Token::ReservedWord("mut".to_owned())));
    assert_eq!(token_reader.next(), Some(Token::Identifier("token_reader".to_owned())));
    assert_eq!(token_reader.next(), Some(Token::Assign));
    assert_eq!(token_reader.next(), Some(Token::Identifier("TokenReader".to_owned())));
    assert_eq!(token_reader.next(), Some(Token::ColonPath));
    assert_eq!(token_reader.next(), Some(Token::Identifier("new".to_owned())));
    assert_eq!(token_reader.next(), Some(Token::LeftParenthesis));
    assert_eq!(token_reader.next(), Some(Token::Identifier("Cursor".to_owned())));
    assert_eq!(token_reader.next(), Some(Token::ColonPath));
    assert_eq!(token_reader.next(), Some(Token::Identifier("new".to_owned())));
    assert_eq!(token_reader.next(), Some(Token::LeftParenthesis));
    assert_eq!(token_reader.next(), Some(Token::Identifier("contents".to_owned())));
    assert_eq!(token_reader.next(), Some(Token::RightParenthesis));
    assert_eq!(token_reader.next(), Some(Token::RightParenthesis));
    assert_eq!(token_reader.next(), Some(Token::SemiColon));
    assert_eq!(token_reader.next(), None);
}

#[test]
fn reader_operator_at_end_gives_nothing() {
    let mut reader = TokenReader::new("a +");
    assert_eq!(reader.next(), Some(Token::Identifier("a".to_owned())));
    assert_eq!(reader.next(), None);
    let mut minus = TokenReader::new("-");
    assert_eq!(minus.next(), None);
}

#[test]
fn reader_single_symbols_at_end() {
    let mut reader = TokenReader::new("x = y & z |");
    assert_eq!(reader.next(), Some(Token::Identifier("x".to_owned())));
    assert_eq!(reader.next(), Some(Token::Assign));
    assert_eq!(reader.next(), Some(Token::Identifier("y".to_owned())));
    assert_eq!(reader.next(), Some(Token::Ampersand));
    assert_eq!(reader.next(), Some(Token::Identifier("z".to_owned())));
    assert_eq!(reader.next(), Some(Token::VerticalBar));
    assert_eq!(reader.next(), None);
}

#[test]
fn reader_skips_all_ascii_whitespace() {
    let mut reader = TokenReader::new("\r\n\t 7 ->x\x0C");
    assert_eq!(reader.next(), Some(Token::Integer("7".to_owned())));
    assert_eq!(reader.next(), Some(Token::SingleArrow));
    assert_eq!(reader.next(), Some(Token::Identifier("x".to_owned())));
    assert_eq!(reader.next(), None);
}

use ez_lang::lex::lexer::Lexer;
use ez_lang::lex::token::Token;

#[test]
fn lexer_read_op_tokens() {
    let contents = r#"
            + 
            += 
            - 
            -= 
            * 
            *= 
            / 
            /= 
            % 
            %= 
            & 
            &= 
            && 
            &&= 
            | 
            |= 
            || 
            ||= 
            ~ 
            ~= 
            = 
            == 
            ! 
            != 
            < 
            <= 
            > 
            >=
        "#;

    let mut token_reader = Lexer::without_whitespaces(contents);
    assert_eq!(token_reader.next(), Some(Token::Plus));
    assert_eq!(token_reader.next(), Some(Token::PlusAssign));
    assert_eq!(token_reader.next(), Some(Token::Minus));
    assert_eq!(token_reader.next(), Some(Token::MinusAssign));
    assert_eq!(token_reader.next(), Some(Token::Asterisk));
    assert_eq!(token_reader.next(), Some(Token::AsteriskAssign));
    assert_eq!(token_reader.next(), Some(Token::Divide));
    assert_eq!(token_reader.next(), Some(Token::DivideAssign));
    assert_eq!(token_reader.next(), Some(Token::Percetange));
    assert_eq!(token_reader.next(), Some(Token::PercetangeAssign));
    assert_eq!(token_reader.next(), Some(Token::Ampersand));
    assert_eq!(token_reader.next(), Some(Token::AmpersandAssign));
    assert_eq!(token_reader.next(), Some(Token::DoubleAmpersand));
    assert_eq!(token_reader.next(), Some(Token::DoubleAmpersandAssign));
    assert_eq!(token_reader.next(), Some(Token::VerticalBar));
    assert_eq!(token_reader.next(), Some(Token::VerticalBarAssign));
    assert_eq!(token_reader.next(), Some(Token::DoubleVerticalBar));
    assert_eq!(token_reader.next(), Some(Token::DoubleVerticalBarAssign));
    assert_eq!(token_reader.next(), Some(Token::Tilde));
    assert_eq!(token_reader.next(), Some(Token::TildeAssign));
    assert_eq!(token_reader.next(), Some(Token::Assign));
    assert_eq!(token_reader.next(), Some(Token::Equal));
    assert_eq!(token_reader.next(), Some(Token::ExclamationMark));
    assert_eq!(token_reader.next(), Some(Token::NotEqual));
    assert_eq!(token_reader.next(), Some(Token::LessThan));
    assert_eq!(token_reader.next(), Some(Token::LessEqual));
    assert_eq!(token_reader.next(), Some(Token::GreaterThan));
    assert_eq!(token_reader.next(), Some(Token::GreaterEqual));
    assert_eq!(token_reader.next(), None);
}

#[test]
fn lexer_read_numbers() {
    let contents = "-323.2 22 -10 1222.";
    let mut token_reader = Lexer::without_whitespaces(contents);

    assert_eq!(token_reader.next(), Some(Token::Minus));
    assert_eq!(token_reader.next(), Some(Token::Float("323.2".to_owned())));
    assert_eq!(token_reader.next(), Some(Token::Integer("22".to_owned())));
    assert_eq!(token_reader.next(), Some(Token::Minus));
    assert_eq!(token_reader.next(), Some(Token::Integer("10".to_owned())));
    assert_eq!(token_reader.next(), Some(Token::Float("1222.".to_owned())));
    assert_eq!(token_reader.next(), None);
}

#[test]
fn lexer_read_words() {
    let contents = "contents let main _ var1 var2 var_33";
    let mut token_reader = Lexer::without_whitespaces(contents);

    assert_eq!(token_reader.next(), Some(Token::Identifier("contents".to_owned())));
    assert_eq!(token_reader.next(), Some(Token::ReservedWord("let".to_owned())));
    assert_eq!(token_reader.next(), Some(Token::ReservedWord("main".to_owned())));
    assert_eq!(token_reader.next(), Some(Token::ReservedWord("_".to_owned())));
    assert_eq!(token_reader.next(), Some(Token::Identifier("var1".to_owned())));
    assert_eq!(token_reader.next(), Some(Token::Identifier("var2".to_owned())));
    assert_eq!(token_reader.next(), Some(Token::Identifier("var_33".to_owned())));
    assert_eq!(token_reader.next(), None);
}

#[test]
fn lexer_read_combination() {
    let contents = "let mut token_reader = TokenReader::new(Cursor::new(contents));";
    let mut token_reader = Lexer::without_whitespaces(contents);

    assert_eq!(token_reader.next(), Some(Token::ReservedWord("let".to_owned())));
    assert_eq!(token_reader.next(), Some(Token::ReservedWord("mut".to_owned())));
    assert_eq!(token_reader.next(), Some(Token::Identifier("token_reader".to_owned())));
    assert_eq!(token_reader.next(), Some(Token::Assign));
    assert_eq!(token_reader.next(), Some(Token::Identifier("TokenReader".to_owned())));
    assert_eq!(token_reader.next(), Some(Token::ColonPath));
    assert_eq!(token_reader.next(), Some(Token::Identifier("new".to_owned())));
    assert_eq!(token_reader.next(), Some(Token::LeftParenthesis));
    assert_eq!(token_reader.next(), Some(Token::Identifier("Cursor".to_owned())));
    assert_eq!(token_reader.next(), Some(Token::ColonPath));
    assert_eq!(token_reader.next(), Some(Token::Identifier("new".to_owned())));
    assert_eq!(token_reader.next(), Some(Token::LeftParenthesis));
    assert_eq!(token_reader.next(), Some(Token::Identifier("contents".to_owned())));
    assert_eq!(token_reader.next(), Some(Token::RightParenthesis));
    assert_eq!(token_reader.next(), Some(Token::RightParenthesis));
    assert_eq!(token_reader.next(), Some(Token::SemiColon));
    assert_eq!(token_reader.next(), None);
}

#[test]
fn read_combination2() {
    let expr = "true && (true || false)";
    let mut lexer = Lexer::without_whitespaces(expr);

    assert_eq!(lexer.next(), Some(Token::ReservedWord("true".to_owned())));
    assert_eq!(lexer.next(), Some(Token::DoubleAmpersand));
    assert_eq!(lexer.next(), Some(Token::LeftParenthesis));
    assert_eq!(lexer.next(), Some(Token::ReservedWord("true".to_owned())));
    assert_eq!(lexer.next(), Some(Token::DoubleVerticalBar));
    assert_eq!(lexer.next(), Some(Token::ReservedWord("false".to_owned())));
    assert_eq!(lexer.next(), Some(Token::RightParenthesis));
    assert_eq!(lexer.next(), None);
}

#[test]
fn lexer_reports_layout() {
    let mut lexer = Lexer::new("a \t\n;");
    assert_eq!(lexer.next(), Some(Token::Identifier("a".to_owned())));
    assert_eq!(lexer.next(), Some(Token::Space));
    assert_eq!(lexer.next(), Some(Token::Tab));
    assert_eq!(lexer.next(), Some(Token::Newline));
    assert_eq!(lexer.next(), Some(Token::SemiColon));
    assert_eq!(lexer.next(), None);
    assert_eq!(lexer.next(), None);
}

#[test]
fn lexer_arrows_dots_and_paths() {
    let mut lexer = Lexer::without_whitespaces("-> => . .. ... : :: 1.5.x");
    assert_eq!(lexer.next(), Some(Token::SingleArrow));
    assert_eq!(lexer.next(), Some(Token::DoubleArrow));
    assert_eq!(lexer.next(), Some(Token::Dot));
    assert_eq!(lexer.next(), Some(Token::DoubleDots));
    assert_eq!(lexer.next(), Some(Token::TripleDots));
    assert_eq!(lexer.next(), Some(Token::Colon));
    assert_eq!(lexer.next(), Some(Token::ColonPath));
    assert_eq!(lexer.next(), Some(Token::Float("1.5".to_owned())));
    assert_eq!(lexer.next(), Some(Token::Dot));
    assert_eq!(lexer.next(), Some(Token::Identifier("x".to_owned())));
    assert_eq!(lexer.next(), None);
}

#[test]
fn lexer_operator_at_end() {
    let mut lexer = Lexer::without_whitespaces("a+");
    assert_eq!(lexer.next(), Some(Token::Identifier("a".to_owned())));
    assert_eq!(lexer.next(), Some(Token::Plus));
    assert_eq!(lexer.next(), None);
}

#[test]
fn lexer_empty_text() {
    let mut lexer = Lexer::without_whitespaces("");
    assert_eq!(lexer.next(), None);
    let mut only_layout = Lexer::without_whitespaces("  \n\t ");
    assert_eq!(only_layout.next(), None);
}

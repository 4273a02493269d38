//! The tokens both lexers produce, and the reserved words of the language.

use vstd::prelude::*;

verus! {

/// A lexical token. Numbers, identifiers and reserved words carry their
/// lexeme as written.
#[derive(Debug, PartialEq, Eq)]
pub enum Token {
    Plus,
    PlusAssign,
    Minus,
    MinusAssign,
    Asterisk,
    AsteriskAssign,
    Divide,
    DivideAssign,
    Percetange,
    PercetangeAssign,
    Ampersand,
    AmpersandAssign,
    DoubleAmpersand,
    DoubleAmpersandAssign,
    VerticalBar,
    VerticalBarAssign,
    DoubleVerticalBar,
    DoubleVerticalBarAssign,
    Tilde,
    TildeAssign,
    Assign,
    Equal,
    ExclamationMark,
    NotEqual,
    LessThan,
    LessEqual,
    GreaterThan,
    GreaterEqual,
    SingleArrow,
    DoubleArrow,
    Coma,
    SemiColon,
    Colon,
    ColonPath,
    Dot,
    DoubleDots,
    TripleDots,
    LeftBrace,
    RightBrace,
    LeftParenthesis,
    RightParenthesis,
    LeftBracket,
    RightBracket,
    Tab,
    Space,
    Newline,
    EndOfFile,
    Integer(String),
    Float(String),
    Identifier(String),
    ReservedWord(String),
}

impl Clone for Token {
    fn clone(&self) -> (r: Self)
        ensures
            r == *self,
    {
        match self {
            Token::Plus => Token::Plus,
            Token::PlusAssign => Token::PlusAssign,
            Token::Minus => Token::Minus,
            Token::MinusAssign => Token::MinusAssign,
            Token::Asterisk => Token::Asterisk,
            Token::AsteriskAssign => Token::AsteriskAssign,
            Token::Divide => Token::Divide,
            Token::DivideAssign => Token::DivideAssign,
            Token::Percetange => Token::Percetange,
            Token::PercetangeAssign => Token::PercetangeAssign,
            Token::Ampersand => Token::Ampersand,
            Token::AmpersandAssign => Token::AmpersandAssign,
            Token::DoubleAmpersand => Token::DoubleAmpersand,
            Token::DoubleAmpersandAssign => Token::DoubleAmpersandAssign,
            Token::VerticalBar => Token::VerticalBar,
            Token::VerticalBarAssign => Token::VerticalBarAssign,
            Token::DoubleVerticalBar => Token::DoubleVerticalBar,
            Token::DoubleVerticalBarAssign => Token::DoubleVerticalBarAssign,
            Token::Tilde => Token::Tilde,
            Token::TildeAssign => Token::TildeAssign,
            Token::Assign => Token::Assign,
            Token::Equal => Token::Equal,
            Token::ExclamationMark => Token::ExclamationMark,
            Token::NotEqual => Token::NotEqual,
            Token::LessThan => Token::LessThan,
            Token::LessEqual => Token::LessEqual,
            Token::GreaterThan => Token::GreaterThan,
            Token::GreaterEqual => Token::GreaterEqual,
            Token::SingleArrow => Token::SingleArrow,
            Token::DoubleArrow => Token::DoubleArrow,
            Token::Coma => Token::Coma,
            Token::SemiColon => Token::SemiColon,
            Token::Colon => Token::Colon,
            Token::ColonPath => Token::ColonPath,
            Token::Dot => Token::Dot,
            Token::DoubleDots => Token::DoubleDots,
            Token::TripleDots => Token::TripleDots,
            Token::LeftBrace => Token::LeftBrace,
            Token::RightBrace => Token::RightBrace,
            Token::LeftParenthesis => Token::LeftParenthesis,
            Token::RightParenthesis => Token::RightParenthesis,
            Token::LeftBracket => Token::LeftBracket,
            Token::RightBracket => Token::RightBracket,
            Token::Tab => Token::Tab,
            Token::Space => Token::Space,
            Token::Newline => Token::Newline,
            Token::EndOfFile => Token::EndOfFile,
            Token::Integer(s) => Token::Integer(s.clone()),
            Token::Float(s) => Token::Float(s.clone()),
            Token::Identifier(s) => Token::Identifier(s.clone()),
            Token::ReservedWord(s) => Token::ReservedWord(s.clone()),
        }
    }
}

/// The text of a token: its lexeme for numbers and words, its symbol otherwise.
pub open spec fn token_text(t: Token) -> Seq<char> {
    match t {
        Token::Plus => "+"@,
        Token::PlusAssign => "+="@,
        Token::Minus => "-"@,
        Token::MinusAssign => "-="@,
        Token::Asterisk => "*"@,
        Token::AsteriskAssign => "*="@,
        Token::Divide => "/"@,
        Token::DivideAssign => "/="@,
        Token::Percetange => "%"@,
        Token::PercetangeAssign => "%="@,
        Token::Ampersand => "&"@,
        Token::AmpersandAssign => "&="@,
        Token::DoubleAmpersand => "&&"@,
        Token::DoubleAmpersandAssign => "&&="@,
        Token::VerticalBar => "|"@,
        Token::VerticalBarAssign => "|="@,
        Token::DoubleVerticalBar => "||"@,
        Token::DoubleVerticalBarAssign => "||="@,
        Token::Tilde => "~"@,
        Token::TildeAssign => "~="@,
        Token::Assign => "="@,
        Token::Equal => "=="@,
        Token::ExclamationMark => "!"@,
        Token::NotEqual => "!="@,
        Token::LessThan => "<"@,
        Token::LessEqual => "<="@,
        Token::GreaterThan => ">"@,
        Token::GreaterEqual => ">="@,
        Token::SingleArrow => "->"@,
        Token::DoubleArrow => "=>"@,
        Token::Coma => ","@,
        Token::SemiColon => ";"@,
        Token::Colon => ":"@,
        Token::ColonPath => "::"@,
        Token::Dot => "."@,
        Token::DoubleDots => ".."@,
        Token::TripleDots => "..."@,
        Token::LeftBrace => "{"@,
        Token::RightBrace => "}"@,
        Token::LeftParenthesis => "("@,
        Token::RightParenthesis => ")"@,
        Token::LeftBracket => "["@,
        Token::RightBracket => "]"@,
        Token::Tab => "\t"@,
        Token::Space => " "@,
        Token::Newline => "\n"@,
        Token::EndOfFile => "EOF"@,
        Token::Integer(s) => s@,
        Token::Float(s) => s@,
        Token::Identifier(s) => s@,
        Token::ReservedWord(s) => s@,
    }
}

/// The words that lex as `ReservedWord` rather than `Identifier`.
pub open spec fn reserved(w: Seq<char>) -> bool {
    w == "let"@
    || w == "mut"@
    || w == "fn"@
    || w == "main"@
    || w == "_"@
    || w == "true"@
    || w == "false"@
    || w == "if"@
    || w == "else"@
    || w == "while"@
    || w == "for"@
    || w == "in"@
    || w == "loop"@
    || w == "break"@
    || w == "continue"@
    || w == "return"@
}

fn same_text(a: &str, b: &str) -> (r: bool)
    ensures
        r == (a@ == b@),
{
    a.to_owned() == b.to_owned()
}

/// Whether `word` is one of the language's reserved words.
pub fn is_reserved_word(word: &str) -> (r: bool)
    ensures
        r == reserved(word@),
{
    same_text(word, "let")
        || same_text(word, "mut")
        || same_text(word, "fn")
        || same_text(word, "main")
        || same_text(word, "_")
        || same_text(word, "true")
        || same_text(word, "false")
        || same_text(word, "if")
        || same_text(word, "else")
        || same_text(word, "while")
        || same_text(word, "for")
        || same_text(word, "in")
        || same_text(word, "loop")
        || same_text(word, "break")
        || same_text(word, "continue")
        || same_text(word, "return")
}

impl Token {
    /// Layout tokens, which the filtered lexer drops.
    pub open spec fn layout(self) -> bool {
        self is Tab || self is Space || self is Newline
    }

    /// The four arithmetic operators `+ - * /`.
    pub open spec fn arith(self) -> bool {
        self is Plus || self is Minus || self is Asterisk || self is Divide
    }

    pub fn is_whitespace(&self) -> (r: bool)
        ensures
            r == self.layout(),
    {
        match self {
            Token::Tab | Token::Space | Token::Newline => true,
            _ => false,
        }
    }

    /// The token's text, as `token_text` gives it.
    pub fn to_string(&self) -> (r: String)
        ensures
            r@ == token_text(*self),
    {
        match self {
            Token::Plus => "+".to_owned(),
            Token::PlusAssign => "+=".to_owned(),
            Token::Minus => "-".to_owned(),
            Token::MinusAssign => "-=".to_owned(),
            Token::Asterisk => "*".to_owned(),
            Token::AsteriskAssign => "*=".to_owned(),
            Token::Divide => "/".to_owned(),
            Token::DivideAssign => "/=".to_owned(),
            Token::Percetange => "%".to_owned(),
            Token::PercetangeAssign => "%=".to_owned(),
            Token::Ampersand => "&".to_owned(),
            Token::AmpersandAssign => "&=".to_owned(),
            Token::DoubleAmpersand => "&&".to_owned(),
            Token::DoubleAmpersandAssign => "&&=".to_owned(),
            Token::VerticalBar => "|".to_owned(),
            Token::VerticalBarAssign => "|=".to_owned(),
            Token::DoubleVerticalBar => "||".to_owned(),
            Token::DoubleVerticalBarAssign => "||=".to_owned(),
            Token::Tilde => "~".to_owned(),
            Token::TildeAssign => "~=".to_owned(),
            Token::Assign => "=".to_owned(),
            Token::Equal => "==".to_owned(),
            Token::ExclamationMark => "!".to_owned(),
            Token::NotEqual => "!=".to_owned(),
            Token::LessThan => "<".to_owned(),
            Token::LessEqual => "<=".to_owned(),
            Token::GreaterThan => ">".to_owned(),
            Token::GreaterEqual => ">=".to_owned(),
            Token::SingleArrow => "->".to_owned(),
            Token::DoubleArrow => "=>".to_owned(),
            Token::Coma => ",".to_owned(),
            Token::SemiColon => ";".to_owned(),
            Token::Colon => ":".to_owned(),
            Token::ColonPath => "::".to_owned(),
            Token::Dot => ".".to_owned(),
            Token::DoubleDots => "..".to_owned(),
            Token::TripleDots => "...".to_owned(),
            Token::LeftBrace => "{".to_owned(),
            Token::RightBrace => "}".to_owned(),
            Token::LeftParenthesis => "(".to_owned(),
            Token::RightParenthesis => ")".to_owned(),
            Token::LeftBracket => "[".to_owned(),
            Token::RightBracket => "]".to_owned(),
            Token::Tab => "\t".to_owned(),
            Token::Space => " ".to_owned(),
            Token::Newline => "\n".to_owned(),
            Token::EndOfFile => "EOF".to_owned(),
            Token::Integer(s) => s.clone(),
            Token::Float(s) => s.clone(),
            Token::Identifier(s) => s.clone(),
            Token::ReservedWord(s) => s.clone(),
        }
    }
}

} // verus!

use crate::error::SyntaxError;
use crate::lex::lexer::{filtered_step, lemma_filtered_advances, lexer_char, Lexer};
use crate::lex::scan::denotes;
use crate::lex::token::Token;
use vstd::prelude::*;

verus! {

/// An arithmetic expression as the parser reads it: numbers with their
/// lexemes, the four operations, and `max` of two expressions.
#[derive(Debug)]
pub enum Calc {
    Number(Token),
    Add(Box<Calc>, Box<Calc>),
    Sub(Box<Calc>, Box<Calc>),
    Mul(Box<Calc>, Box<Calc>),
    Div(Box<Calc>, Box<Calc>),
    Max(Box<Calc>, Box<Calc>),
}

/// What the parser wanted where it failed.
#[derive(Debug, Clone, Copy, PartialEq, Eq)]
pub enum Expected {
    /// An operand: a number, an operator or a parenthesis.
    Factor,
    RightParenthesis,
    LeftParenthesis,
    Coma,
    /// The name `max`, the one function the grammar knows.
    Max,
    /// An operator, after a complete expression.
    Operator,
}

/// `v` is the list of tokens that a syntax error for `e` reports.
pub open spec fn lists(v: Seq<Token>, e: Expected) -> bool {
    match e {
        Expected::Factor => {
            &&& v.len() == 8
            &&& v[0] == Token::Plus
            &&& v[1] == Token::Minus
            &&& v[2] == Token::Asterisk
            &&& v[3] == Token::Divide
            &&& v[4] == Token::LeftParenthesis
            &&& v[5] == Token::RightParenthesis
            &&& v[6] matches Token::Float(x) && x@.len() == 0
            &&& v[7] matches Token::Integer(x) && x@.len() == 0
        },
        Expected::RightParenthesis => v == seq![Token::RightParenthesis],
        Expected::LeftParenthesis => v == seq![Token::LeftParenthesis],
        Expected::Coma => v == seq![Token::Coma],
        Expected::Max => v.len() == 1 && (v[0] matches Token::Identifier(x) && x@ == "max"@),
        Expected::Operator => v == seq![Token::Plus, Token::Minus, Token::Asterisk, Token::Divide],
    }
}

/// The outcome of parsing from a position: the expression and the position
/// after it, or the token found (`EndOfFile` past the end) and what was
/// wanted instead.
pub type Parsed = Result<(Calc, nat), (Token, Expected)>;

/// The token at `i`, or `EndOfFile` past the end.
pub open spec fn got_at(ts: Seq<Token>, i: nat) -> Token {
    if i < ts.len() {
        ts[i as int]
    } else {
        Token::EndOfFile
    }
}

/// `Expr = Term { (+|-) Term }`.
pub open spec fn parse_expr(ts: Seq<Token>, i: nat) -> Parsed
    decreases ts.len() - i, 4nat,
{
    match parse_term(ts, i) {
        Ok((c, j)) => if i < j <= ts.len() {
            expr_rest(ts, c, j)
        } else {
            Ok((c, j))
        },
        Err(e) => Err(e),
    }
}

/// The `{ (+|-) Term }` part of `Expr` after `acc`, from `j`.
pub open spec fn expr_rest(ts: Seq<Token>, acc: Calc, j: nat) -> Parsed
    decreases ts.len() - j, 3nat,
{
    if j < ts.len() && (ts[j as int] is Plus || ts[j as int] is Minus) {
        match parse_term(ts, j + 1) {
            Ok((r, k)) => {
                let c = if ts[j as int] is Plus {
                    Calc::Add(Box::new(acc), Box::new(r))
                } else {
                    Calc::Sub(Box::new(acc), Box::new(r))
                };
                if j < k <= ts.len() {
                    expr_rest(ts, c, k)
                } else {
                    Ok((c, k))
                }
            },
            Err(e) => Err(e),
        }
    } else {
        Ok((acc, j))
    }
}

/// `Term = Factor { (*|/) Factor }`.
pub open spec fn parse_term(ts: Seq<Token>, i: nat) -> Parsed
    decreases ts.len() - i, 2nat,
{
    match parse_factor(ts, i) {
        Ok((c, j)) => if i < j <= ts.len() {
            term_rest(ts, c, j)
        } else {
            Ok((c, j))
        },
        Err(e) => Err(e),
    }
}

/// The `{ (*|/) Factor }` part of `Term` after `acc`, from `j`.
pub open spec fn term_rest(ts: Seq<Token>, acc: Calc, j: nat) -> Parsed
    decreases ts.len() - j, 1nat,
{
    if j < ts.len() && (ts[j as int] is Asterisk || ts[j as int] is Divide) {
        match parse_factor(ts, j + 1) {
            Ok((r, k)) => {
                let c = if ts[j as int] is Asterisk {
                    Calc::Mul(Box::new(acc), Box::new(r))
                } else {
                    Calc::Div(Box::new(acc), Box::new(r))
                };
                if j < k <= ts.len() {
                    term_rest(ts, c, k)
                } else {
                    Ok((c, k))
                }
            },
            Err(e) => Err(e),
        }
    } else {
        Ok((acc, j))
    }
}

/// `Factor = ( Expr ) | Number | max ( Expr , Expr )`.
pub open spec fn parse_factor(ts: Seq<Token>, i: nat) -> Parsed
    decreases ts.len() - i, 0nat,
{
    if i >= ts.len() {
        Err((Token::EndOfFile, Expected::Factor))
    } else {
        let t = ts[i as int];
        match t {
            Token::Float(_) => Ok((Calc::Number(t), i + 1)),
            Token::Integer(_) => Ok((Calc::Number(t), i + 1)),
            Token::LeftParenthesis => match parse_expr(ts, i + 1) {
                Ok((c, j)) => if j < ts.len() && ts[j as int] is RightParenthesis {
                    Ok((c, j + 1))
                } else {
                    Err((got_at(ts, j), Expected::RightParenthesis))
                },
                Err(e) => Err(e),
            },
            Token::Identifier(id) => if id@ != "max"@ {
                Err((t, Expected::Max))
            } else if !(i + 1 < ts.len() && ts[i + 1 as int] is LeftParenthesis) {
                Err((got_at(ts, i + 1), Expected::LeftParenthesis))
            } else {
                match parse_expr(ts, i + 2) {
                    Ok((c1, j)) => if !(j < ts.len() && ts[j as int] is Coma) {
                        Err((got_at(ts, j), Expected::Coma))
                    } else if i < j {
                        match parse_expr(ts, j + 1) {
                            Ok((c2, k)) => if k < ts.len() && ts[k as int] is RightParenthesis {
                                Ok((Calc::Max(Box::new(c1), Box::new(c2)), k + 1))
                            } else {
                                Err((got_at(ts, k), Expected::RightParenthesis))
                            },
                            Err(e) => Err(e),
                        }
                    } else {
                        Err((got_at(ts, j), Expected::Coma))
                    },
                    Err(e) => Err(e),
                }
            },
            _ => Err((t, Expected::Factor)),
        }
    }
}

/// A whole text: one expression and nothing after it.
pub open spec fn parse_all(ts: Seq<Token>) -> Result<Calc, (Token, Expected)> {
    match parse_expr(ts, 0) {
        Ok((c, j)) => if j < ts.len() {
            Err((ts[j as int], Expected::Operator))
        } else {
            Ok(c)
        },
        Err(e) => Err(e),
    }
}

/// `r` is the executable form of the parse outcome `p`.
pub open spec fn agrees(r: Result<(Calc, usize), SyntaxError>, p: Parsed) -> bool {
    match p {
        Ok((c, j)) => (r matches Ok(v) && v.0 == c && v.1 == j),
        Err((got, e)) => (r matches Err(err) && err.got == got && lists(err.expected@, e)),
    }
}

/// The tokens `ts` are what the filtered lexer reads from `s` between
/// positions `p` and `q`.
pub open spec fn lexes(s: Seq<char>, p: nat, ts: Seq<Token>, q: nat) -> bool
    decreases ts.len(),
{
    if ts.len() == 0 {
        p == q
    } else {
        let (k, start, end) = filtered_step(s, p);
        &&& (k matches Some(k) && denotes(ts[0], k, s.subrange(start as int, end as int)))
        &&& lexes(s, end, ts.drop_first(), q)
    }
}

proof fn lemma_lexes_push(s: Seq<char>, p: nat, ts: Seq<Token>, q: nat, t: Token)
    requires
        lexes(s, p, ts, q),
        filtered_step(s, q).0 matches Some(k) && denotes(
            t,
            k,
            s.subrange(filtered_step(s, q).1 as int, filtered_step(s, q).2 as int),
        ),
    ensures
        lexes(s, p, ts.push(t), filtered_step(s, q).2),
    decreases ts.len(),
{
    let end = filtered_step(s, q).2;
    if ts.len() > 0 {
        lemma_lexes_push(s, filtered_step(s, p).2, ts.drop_first(), q, t);
        assert(ts.push(t).drop_first() =~= ts.drop_first().push(t));
        assert(ts.push(t)[0] == ts[0]);
    } else {
        assert(ts.push(t).drop_first() =~= Seq::<Token>::empty());
        assert(lexes(s, end, Seq::<Token>::empty(), end));
        assert(ts.push(t)[0] == t);
    }
}

fn expected_tokens(e: Expected) -> (r: Vec<Token>)
    ensures
        lists(r@, e),
{
    let mut v: Vec<Token> = Vec::new();
    match e {
        Expected::Factor => {
            v.push(Token::Plus);
            v.push(Token::Minus);
            v.push(Token::Asterisk);
            v.push(Token::Divide);
            v.push(Token::LeftParenthesis);
            v.push(Token::RightParenthesis);
            v.push(Token::Float(String::new()));
            v.push(Token::Integer(String::new()));
        },
        Expected::RightParenthesis => v.push(Token::RightParenthesis),
        Expected::LeftParenthesis => v.push(Token::LeftParenthesis),
        Expected::Coma => v.push(Token::Coma),
        Expected::Max => v.push(Token::Identifier("max".to_owned())),
        Expected::Operator => {
            v.push(Token::Plus);
            v.push(Token::Minus);
            v.push(Token::Asterisk);
            v.push(Token::Divide);
        },
    }
    proof {
        if e is RightParenthesis || e is LeftParenthesis || e is Coma {
            assert(v@ =~= seq![v@[0]]);
        }
        if e is Operator {
            assert(v@ =~= seq![Token::Plus, Token::Minus, Token::Asterisk, Token::Divide]);
        }
    }
    v
}

fn syntax_error(got: Token, e: Expected) -> (r: SyntaxError)
    ensures
        r.got == got,
        lists(r.expected@, e),
{
    SyntaxError { got, expected: expected_tokens(e) }
}

/// The token at `i`, or `EndOfFile` past the end.
fn token_at(ts: &Vec<Token>, i: usize) -> (r: Token)
    ensures
        r == got_at(ts@, i as nat),
{
    if i < ts.len() {
        ts[i].clone()
    } else {
        Token::EndOfFile
    }
}

fn parse_expr_at(ts: &Vec<Token>, i: usize) -> (r: Result<(Calc, usize), SyntaxError>)
    requires
        i <= ts@.len(),
    ensures
        agrees(r, parse_expr(ts@, i as nat)),
        r matches Ok(v) ==> i < v.1 <= ts@.len(),
    decreases ts@.len() - i, 4nat,
{
    let (mut acc, mut j) = match parse_term_at(ts, i) {
        Ok(v) => v,
        Err(e) => return Err(e),
    };
    loop
        invariant
            i < j <= ts@.len(),
            expr_rest(ts@, acc, j as nat) == parse_expr(ts@, i as nat),
        decreases ts@.len() - j,
    {
        if j < ts.len() && (matches!(ts[j], Token::Plus) || matches!(ts[j], Token::Minus)) {
            let plus = matches!(ts[j], Token::Plus);
            match parse_term_at(ts, j + 1) {
                Ok((r, k)) => {
                    acc = if plus {
                        Calc::Add(Box::new(acc), Box::new(r))
                    } else {
                        Calc::Sub(Box::new(acc), Box::new(r))
                    };
                    j = k;
                },
                Err(e) => return Err(e),
            }
        } else {
            return Ok((acc, j));
        }
    }
}

fn parse_term_at(ts: &Vec<Token>, i: usize) -> (r: Result<(Calc, usize), SyntaxError>)
    requires
        i <= ts@.len(),
    ensures
        agrees(r, parse_term(ts@, i as nat)),
        r matches Ok(v) ==> i < v.1 <= ts@.len(),
    decreases ts@.len() - i, 2nat,
{
    let (mut acc, mut j) = match parse_factor_at(ts, i) {
        Ok(v) => v,
        Err(e) => return Err(e),
    };
    loop
        invariant
            i < j <= ts@.len(),
            term_rest(ts@, acc, j as nat) == parse_term(ts@, i as nat),
        decreases ts@.len() - j,
    {
        if j < ts.len() && (matches!(ts[j], Token::Asterisk) || matches!(ts[j], Token::Divide)) {
            let times = matches!(ts[j], Token::Asterisk);
            match parse_factor_at(ts, j + 1) {
                Ok((r, k)) => {
                    acc = if times {
                        Calc::Mul(Box::new(acc), Box::new(r))
                    } else {
                        Calc::Div(Box::new(acc), Box::new(r))
                    };
                    j = k;
                },
                Err(e) => return Err(e),
            }
        } else {
            return Ok((acc, j));
        }
    }
}

fn is_max(id: &String) -> (r: bool)
    ensures
        r == (id@ == "max"@),
{
    *id == "max".to_owned()
}

fn parse_factor_at(ts: &Vec<Token>, i: usize) -> (r: Result<(Calc, usize), SyntaxError>)
    requires
        i <= ts@.len(),
    ensures
        agrees(r, parse_factor(ts@, i as nat)),
        r matches Ok(v) ==> i < v.1 <= ts@.len(),
    decreases ts@.len() - i, 0nat,
{
    if i >= ts.len() {
        return Err(syntax_error(Token::EndOfFile, Expected::Factor));
    }
    let t = &ts[i];
    match t {
        Token::Float(_) | Token::Integer(_) => Ok((Calc::Number(t.clone()), i + 1)),
        Token::LeftParenthesis => {
            let (c, j) = match parse_expr_at(ts, i + 1) {
                Ok(v) => v,
                Err(e) => return Err(e),
            };
            if j < ts.len() && matches!(ts[j], Token::RightParenthesis) {
                Ok((c, j + 1))
            } else {
                Err(syntax_error(token_at(ts, j), Expected::RightParenthesis))
            }
        },
        Token::Identifier(id) => {
            if !is_max(id) {
                return Err(syntax_error(t.clone(), Expected::Max));
            }
            if !(i + 1 < ts.len() && matches!(ts[i + 1], Token::LeftParenthesis)) {
                return Err(syntax_error(token_at(ts, i + 1), Expected::LeftParenthesis));
            }
            let (c1, j) = match parse_expr_at(ts, i + 2) {
                Ok(v) => v,
                Err(e) => return Err(e),
            };
            if !(j < ts.len() && matches!(ts[j], Token::Coma)) {
                return Err(syntax_error(token_at(ts, j), Expected::Coma));
            }
            let (c2, k) = match parse_expr_at(ts, j + 1) {
                Ok(v) => v,
                Err(e) => return Err(e),
            };
            if k < ts.len() && matches!(ts[k], Token::RightParenthesis) {
                Ok((Calc::Max(Box::new(c1), Box::new(c2)), k + 1))
            } else {
                Err(syntax_error(token_at(ts, k), Expected::RightParenthesis))
            }
        },
        _ => Err(syntax_error(t.clone(), Expected::Factor)),
    }
}

/// A parser for arithmetic over numbers, `+ - * /`, parentheses and
/// `max(a, b)`, reading the tokens of the filtered lexer.
#[derive(Debug)]
pub struct Parser {
    tokens: Vec<Token>,
}

impl Parser {
    /// The tokens of the text.
    pub closed spec fn tokens(&self) -> Seq<Token> {
        self.tokens@
    }

    /// Reads every token of `inner`, layout left out.
    pub fn new(inner: &str) -> (r: Parser)
        requires
            forall|i: int| 0 <= i < inner@.len() ==> lexer_char(#[trigger] inner@[i]),
        ensures
            exists|q: nat| lexes(inner@, 0, r.tokens(), q) && filtered_step(inner@, q).0 is None,
    {
        let mut lexer = Lexer::without_whitespaces(inner);
        let mut tokens: Vec<Token> = Vec::new();
        loop
            invariant
                lexer.wf(),
                lexer.text() == inner@,
                lexes(inner@, 0, tokens@, lexer.pos()),
            decreases inner@.len() - lexer.pos(),
        {
            proof {
                lexer.lemma_pos_in_text();
                lemma_filtered_advances(inner@, lexer.pos());
            }
            let ghost before = lexer.pos();
            match lexer.next() {
                Some(t) => {
                    proof {
                        lemma_lexes_push(inner@, 0, tokens@, before, t);
                    }
                    tokens.push(t);
                },
                None => {
                    let r = Parser { tokens };
                    assert(lexes(inner@, 0, r.tokens(), before) && filtered_step(inner@, before).0 is None);
                    return r;
                },
            }
        }
    }

    /// Parses the whole text as one expression.
    pub fn parse(&self) -> (r: Result<Calc, SyntaxError>)
        ensures
            match parse_all(self.tokens()) {
                Ok(c) => (r matches Ok(v) && v == c),
                Err((got, e)) => (r matches Err(err) && err.got == got && lists(err.expected@, e)),
            },
    {
        let (c, j) = match parse_expr_at(&self.tokens, 0) {
            Ok(v) => v,
            Err(e) => return Err(e),
        };
        if j < self.tokens.len() {
            Err(syntax_error(self.tokens[j].clone(), Expected::Operator))
        } else {
            Ok(c)
        }
    }
}

} // verus!

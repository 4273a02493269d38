//! The token reader: a lexer that skips whitespace and reads a `-` directly
//! before a digit as the sign of a number.

use crate::lex::scan::{
    char_at, dots, fixed, is_digit, is_in_class, is_space, is_symbol, is_symbol_char, is_word_start,
    number_end, number_is_float, run_end, scan_number, scan_run, scan_word, simple_op,
    simple_op_tokens, single_char, single_char_token, yields, CharClass, Scanned,
};
use crate::lex::token::Token;
use crate::text::chars_of;
use vstd::prelude::*;

verus! {

/// The characters the reader has tokens for, whitespace included.
pub open spec fn reader_char(c: char) -> bool {
    is_digit(c) || is_word_start(c) || is_symbol(c) || is_space(c)
}

/// Whether the reader has a token for `c` or skips it.
pub fn is_reader_char(c: char) -> (r: bool)
    ensures
        r == reader_char(c),
{
    is_in_class(c, CharClass::Word) || is_symbol_char(c) || is_in_class(c, CharClass::Space)
}

/// An operator whose characters end before `q`: followed by `=`, its
/// assignment form; at the end of the text, nothing.
pub open spec fn reader_op(s: Seq<char>, q: nat, single: Token, assign: Token) -> (
    Option<Scanned>,
    nat,
) {
    match char_at(s, q) {
        None => (None, q),
        Some(c) => if c == '=' {
            fixed(assign, q + 1)
        } else {
            fixed(single, q)
        },
    }
}

/// Where the token after position `p` starts: past the whitespace there.
pub open spec fn token_start(s: Seq<char>, p: nat) -> nat {
    run_end(s, p, CharClass::Space)
}

/// One step of the reader at position `p`: what it recognises after the
/// whitespace there, and where it stops.
pub open spec fn reader_step(s: Seq<char>, p: nat) -> (Option<Scanned>, nat) {
    let w = token_start(s, p);
    if p >= s.len() {
        (None, p)
    } else {
        match char_at(s, w) {
            None => (None, w),
            Some(c) => if is_digit(c) {
                (Some(Scanned::Number { float: number_is_float(s, w) }), number_end(s, w))
            } else if is_word_start(c) {
                (Some(Scanned::Word), run_end(s, w, CharClass::Word))
            } else if c == '-' {
                match char_at(s, w + 1) {
                    None => (None, w),
                    Some(d) => if is_digit(d) {
                        (
                            Some(Scanned::Number { float: number_is_float(s, w + 1) }),
                            number_end(s, w + 1),
                        )
                    } else if d == '>' {
                        fixed(Token::SingleArrow, w + 2)
                    } else {
                        reader_op(s, w + 1, Token::Minus, Token::MinusAssign)
                    },
                }
            } else if c == ':' {
                if char_at(s, w + 1) == Some(':') {
                    fixed(Token::ColonPath, w + 2)
                } else {
                    fixed(Token::Colon, w + 1)
                }
            } else if c == '.' {
                dots(s, w)
            } else if c == '=' {
                match char_at(s, w + 1) {
                    None => fixed(Token::Assign, w + 1),
                    Some(d) => if d == '>' {
                        fixed(Token::DoubleArrow, w + 2)
                    } else {
                        reader_op(s, w + 1, Token::Assign, Token::Equal)
                    },
                }
            } else if c == '&' {
                match char_at(s, w + 1) {
                    None => fixed(Token::Ampersand, w + 1),
                    Some(d) => if d == '&' {
                        reader_op(s, w + 2, Token::DoubleAmpersand, Token::DoubleAmpersandAssign)
                    } else {
                        reader_op(s, w + 1, Token::Ampersand, Token::AmpersandAssign)
                    },
                }
            } else if c == '|' {
                match char_at(s, w + 1) {
                    None => fixed(Token::VerticalBar, w + 1),
                    Some(d) => if d == '|' {
                        reader_op(s, w + 2, Token::DoubleVerticalBar, Token::DoubleVerticalBarAssign)
                    } else {
                        reader_op(s, w + 1, Token::VerticalBar, Token::VerticalBarAssign)
                    },
                }
            } else {
                match single_char(c) {
                    Some(t) => fixed(t, w + 1),
                    None => match simple_op(c) {
                        Some(ops) => reader_op(s, w + 1, ops.0, ops.1),
                        None => (None, w),
                    },
                }
            },
        }
    }
}

/// A lexer over a text that skips whitespace.
#[derive(Debug)]
pub struct TokenReader {
    chars: Vec<char>,
    cursor: usize,
}

impl TokenReader {
    /// The text being read.
    pub closed spec fn text(&self) -> Seq<char> {
        self.chars@
    }

    /// The position of the next character to read.
    pub closed spec fn pos(&self) -> nat {
        self.cursor as nat
    }

    pub closed spec fn wf(&self) -> bool {
        &&& self.cursor <= self.chars@.len()
        &&& forall|i: int| 0 <= i < self.chars@.len() ==> reader_char(#[trigger] self.chars@[i])
    }

    pub fn new(inner: &str) -> (r: TokenReader)
        requires
            forall|i: int| 0 <= i < inner@.len() ==> reader_char(#[trigger] inner@[i]),
        ensures
            r.wf(),
            r.text() == inner@,
            r.pos() == 0,
    {
        TokenReader { chars: chars_of(inner), cursor: 0 }
    }

    fn peek_curr(&self) -> (r: Option<char>)
        requires
            self.wf(),
        ensures
            r == char_at(self.text(), self.pos()),
    {
        if self.cursor < self.chars.len() {
            Some(self.chars[self.cursor])
        } else {
            None
        }
    }

    fn peek_ahead(&self, offset: usize) -> (r: Option<char>)
        requires
            self.wf(),
        ensures
            r == char_at(self.text(), self.pos() + offset as nat),
    {
        if offset < self.chars.len() - self.cursor {
            Some(self.chars[self.cursor + offset])
        } else {
            None
        }
    }

    fn consume_curr(&mut self)
        requires
            old(self).wf(),
            old(self).pos() < old(self).text().len(),
        ensures
            final(self).wf(),
            final(self).text() == old(self).text(),
            final(self).pos() == old(self).pos() + 1,
    {
        if self.cursor < self.chars.len() {
            self.cursor = self.cursor + 1;
        }
    }

    /// Reads a number at the cursor, with its sign when it starts with `-`.
    fn match_number(&mut self) -> (r: Option<Token>)
        requires
            old(self).wf(),
            old(self).pos() < old(self).text().len(),
        ensures
            final(self).wf(),
            final(self).text() == old(self).text(),
            ({
                let s = old(self).text();
                let p = old(self).pos();
                let body = if s[p as int] == '-' {
                    p + 1
                } else {
                    p
                };
                &&& final(self).pos() == number_end(s, body)
                &&& yields(
                    r,
                    Some(Scanned::Number { float: number_is_float(s, body) }),
                    s.subrange(p as int, final(self).pos() as int),
                )
            }),
    {
        let start = self.cursor;
        let len = self.chars.len();
        assert(start < len);
        let body = if self.chars[start] == '-' {
            start + 1
        } else {
            start
        };
        let (t, end) = scan_number(&self.chars, start, body);
        self.cursor = end;
        Some(t)
    }

    fn match_word(&mut self) -> (r: Option<Token>)
        requires
            old(self).wf(),
        ensures
            final(self).wf(),
            final(self).text() == old(self).text(),
            final(self).pos() == run_end(old(self).text(), old(self).pos(), CharClass::Word),
            yields(
                r,
                Some(Scanned::Word),
                old(self).text().subrange(old(self).pos() as int, final(self).pos() as int),
            ),
    {
        let (t, end) = scan_word(&self.chars, self.cursor);
        self.cursor = end;
        Some(t)
    }

    /// Consumes the operator character at the cursor, and a `=` after it.
    fn match_op(&mut self, single: Token, assign: Token) -> (r: Option<Token>)
        requires
            old(self).wf(),
            old(self).pos() < old(self).text().len(),
        ensures
            final(self).wf(),
            final(self).text() == old(self).text(),
            ({
                let (k, q) = reader_op(old(self).text(), old(self).pos() + 1, single, assign);
                final(self).pos() == q && yields(r, k, Seq::empty())
            }),
    {
        self.consume_curr();
        match self.peek_curr() {
            Some(c) => if c == '=' {
                self.consume_curr();
                Some(assign)
            } else {
                Some(single)
            },
            None => None,
        }
    }

    /// The next token after the whitespace at the cursor; `None` at the end
    /// of the text, and where an operator or a `-` ends the text.
    pub fn next(&mut self) -> (r: Option<Token>)
        requires
            old(self).wf(),
        ensures
            final(self).wf(),
            final(self).text() == old(self).text(),
            ({
                let s = old(self).text();
                let (k, q) = reader_step(s, old(self).pos());
                &&& final(self).pos() == q
                &&& yields(r, k, s.subrange(token_start(s, old(self).pos()) as int, q as int))
            }),
    {
        if self.peek_curr().is_none() {
            return None;
        }
        self.cursor = scan_run(&self.chars, self.cursor, CharClass::Space);
        let c = match self.peek_curr() {
            Some(c) => c,
            None => return None,
        };
        if '0' <= c && c <= '9' {
            self.match_number()
        } else if ('a' <= c && c <= 'z') || ('A' <= c && c <= 'Z') || c == '_' {
            self.match_word()
        } else if c == '-' {
            match self.peek_ahead(1) {
                Some(d) => if '0' <= d && d <= '9' {
                    self.match_number()
                } else if d == '>' {
                    self.consume_curr();
                    self.consume_curr();
                    Some(Token::SingleArrow)
                } else {
                    self.match_op(Token::Minus, Token::MinusAssign)
                },
                None => None,
            }
        } else if c == ':' {
            self.consume_curr();
            match self.peek_curr() {
                Some(':') => {
                    self.consume_curr();
                    Some(Token::ColonPath)
                },
                _ => Some(Token::Colon),
            }
        } else if c == '.' {
            self.consume_curr();
            match (self.peek_curr(), self.peek_ahead(1)) {
                (Some('.'), Some('.')) => {
                    self.consume_curr();
                    self.consume_curr();
                    Some(Token::TripleDots)
                },
                (Some('.'), _) => {
                    self.consume_curr();
                    Some(Token::DoubleDots)
                },
                _ => Some(Token::Dot),
            }
        } else if c == '=' {
            match self.peek_ahead(1) {
                Some(d) => if d == '>' {
                    self.consume_curr();
                    self.consume_curr();
                    Some(Token::DoubleArrow)
                } else {
                    self.match_op(Token::Assign, Token::Equal)
                },
                None => {
                    self.consume_curr();
                    Some(Token::Assign)
                },
            }
        } else if c == '&' {
            match self.peek_ahead(1) {
                Some(d) => if d == '&' {
                    self.consume_curr();
                    self.match_op(Token::DoubleAmpersand, Token::DoubleAmpersandAssign)
                } else {
                    self.match_op(Token::Ampersand, Token::AmpersandAssign)
                },
                None => {
                    self.consume_curr();
                    Some(Token::Ampersand)
                },
            }
        } else if c == '|' {
            match self.peek_ahead(1) {
                Some(d) => if d == '|' {
                    self.consume_curr();
                    self.match_op(Token::DoubleVerticalBar, Token::DoubleVerticalBarAssign)
                } else {
                    self.match_op(Token::VerticalBar, Token::VerticalBarAssign)
                },
                None => {
                    self.consume_curr();
                    Some(Token::VerticalBar)
                },
            }
        } else {
            match single_char_token(c) {
                Some(t) => {
                    self.consume_curr();
                    Some(t)
                },
                None => match simple_op_tokens(c) {
                    Some((single, assign)) => self.match_op(single, assign),
                    None => None,
                },
            }
        }
    }
}

} // verus!

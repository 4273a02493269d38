use crate::lex::scan::{
    char_at, dots, fixed, is_digit, is_in_class, is_symbol, is_symbol_char, is_word_start,
    lemma_number_end_bounds, lemma_run_end_bounds, number_end, number_is_float, run_end,
    scan_number, scan_word, simple_op, simple_op_tokens, single_char, single_char_token, yields,
    CharClass, Scanned,
};
use crate::lex::token::Token;
use crate::text::chars_of;
use vstd::prelude::*;

verus! {

/// The characters this lexer has tokens for: digits, letters, `_`, the
/// symbols, and space, tab and newline, which it reports as tokens.
pub open spec fn lexer_char(c: char) -> bool {
    is_digit(c) || is_word_start(c) || is_symbol(c) || c == ' ' || c == '\t' || c == '\n'
}

/// Whether this lexer has a token for `c`.
pub fn is_lexer_char(c: char) -> (r: bool)
    ensures
        r == lexer_char(c),
{
    is_in_class(c, CharClass::Word) || is_symbol_char(c) || c == ' ' || c == '\t' || c == '\n'
}

/// An operator whose characters end before `q`: followed by `=`, its
/// assignment form.
pub open spec fn lexer_op(s: Seq<char>, q: nat, single: Token, assign: Token) -> (
    Option<Scanned>,
    nat,
) {
    if char_at(s, q) == Some('=') {
        fixed(assign, q + 1)
    } else {
        fixed(single, q)
    }
}

/// One step of the lexer at position `p`: what it recognises there and
/// where it stops. Numbers are unsigned; a `-` before digits is an operator.
pub open spec fn lex_step(s: Seq<char>, p: nat) -> (Option<Scanned>, nat) {
    match char_at(s, p) {
        None => (None, p),
        Some(c) => if is_digit(c) {
            (Some(Scanned::Number { float: number_is_float(s, p) }), number_end(s, p))
        } else if is_word_start(c) {
            (Some(Scanned::Word), run_end(s, p, CharClass::Word))
        } else if c == '-' {
            if char_at(s, p + 1) == Some('>') {
                fixed(Token::SingleArrow, p + 2)
            } else {
                lexer_op(s, p + 1, Token::Minus, Token::MinusAssign)
            }
        } else if c == ':' {
            if char_at(s, p + 1) == Some(':') {
                fixed(Token::ColonPath, p + 2)
            } else {
                fixed(Token::Colon, p + 1)
            }
        } else if c == '.' {
            dots(s, p)
        } else if c == '=' {
            if char_at(s, p + 1) == Some('>') {
                fixed(Token::DoubleArrow, p + 2)
            } else {
                lexer_op(s, p + 1, Token::Assign, Token::Equal)
            }
        } else if c == '&' {
            if char_at(s, p + 1) == Some('&') {
                lexer_op(s, p + 2, Token::DoubleAmpersand, Token::DoubleAmpersandAssign)
            } else {
                lexer_op(s, p + 1, Token::Ampersand, Token::AmpersandAssign)
            }
        } else if c == '|' {
            if char_at(s, p + 1) == Some('|') {
                lexer_op(s, p + 2, Token::DoubleVerticalBar, Token::DoubleVerticalBarAssign)
            } else {
                lexer_op(s, p + 1, Token::VerticalBar, Token::VerticalBarAssign)
            }
        } else if c == '\t' {
            fixed(Token::Tab, p + 1)
        } else if c == ' ' {
            fixed(Token::Space, p + 1)
        } else if c == '\n' {
            fixed(Token::Newline, p + 1)
        } else {
            match single_char(c) {
                Some(t) => fixed(t, p + 1),
                None => match simple_op(c) {
                    Some(ops) => lexer_op(s, p + 1, ops.0, ops.1),
                    None => (None, p),
                },
            }
        },
    }
}

/// Layout tokens are skipped: the step of the filtered lexer at `p` is the
/// first step from `p` on that recognises something else, with the position
/// where that step began.
pub open spec fn filtered_step(s: Seq<char>, p: nat) -> (Option<Scanned>, nat, nat)
    decreases s.len() - p,
{
    let (k, q) = lex_step(s, p);
    if k matches Some(Scanned::Fixed(t)) && t.layout() && p < q <= s.len() {
        filtered_step(s, q)
    } else {
        (k, p, q)
    }
}

/// A step that recognises something moves forward and stays in the text.
pub proof fn lemma_lex_step_advances(s: Seq<char>, p: nat)
    requires
        p <= s.len(),
    ensures
        lex_step(s, p).0 is Some ==> p < lex_step(s, p).1 <= s.len(),
{
    if p < s.len() && is_digit(s[p as int]) {
        lemma_number_end_bounds(s, p);
    }
    if p < s.len() && is_word_start(s[p as int]) {
        lemma_run_end_bounds(s, p + 1, CharClass::Word);
    }
}

/// A lexer over a text that reports every token, layout included.
#[derive(Debug)]
pub struct Lexer {
    chars: Vec<char>,
    cursor: usize,
}

/// A lexer that skips layout tokens.
#[derive(Debug)]
pub struct FilteredLexer {
    lexer: Lexer,
}

impl Lexer {
    /// The text being read.
    pub closed spec fn text(&self) -> Seq<char> {
        self.chars@
    }

    /// The position of the next character to read.
    pub closed spec fn pos(&self) -> nat {
        self.cursor as nat
    }

    pub closed spec fn wf(&self) -> bool {
        &&& self.cursor <= self.chars@.len()
        &&& forall|i: int| 0 <= i < self.chars@.len() ==> lexer_char(#[trigger] self.chars@[i])
    }

    pub fn new(inner: &str) -> (r: Lexer)
        requires
            forall|i: int| 0 <= i < inner@.len() ==> lexer_char(#[trigger] inner@[i]),
        ensures
            r.wf(),
            r.text() == inner@,
            r.pos() == 0,
    {
        Lexer { chars: chars_of(inner), cursor: 0 }
    }

    pub fn without_whitespaces(inner: &str) -> (r: FilteredLexer)
        requires
            forall|i: int| 0 <= i < inner@.len() ==> lexer_char(#[trigger] inner@[i]),
        ensures
            r.wf(),
            r.text() == inner@,
            r.pos() == 0,
    {
        FilteredLexer { lexer: Lexer::new(inner) }
    }

    fn peek_curr(&self) -> (r: Option<char>)
        requires
            self.wf(),
        ensures
            r == char_at(self.text(), self.pos()),
    {
        if self.cursor < self.chars.len() {
            Some(self.chars[self.cursor])
        } else {
            None
        }
    }

    fn peek_ahead(&self, offset: usize) -> (r: Option<char>)
        requires
            self.wf(),
        ensures
            r == char_at(self.text(), self.pos() + offset as nat),
    {
        if offset < self.chars.len() - self.cursor {
            Some(self.chars[self.cursor + offset])
        } else {
            None
        }
    }

    fn consume_curr(&mut self)
        requires
            old(self).wf(),
            old(self).pos() < old(self).text().len(),
        ensures
            final(self).wf(),
            final(self).text() == old(self).text(),
            final(self).pos() == old(self).pos() + 1,
    {
        if self.cursor < self.chars.len() {
            self.cursor = self.cursor + 1;
        }
    }

    fn match_number(&mut self) -> (r: Option<Token>)
        requires
            old(self).wf(),
        ensures
            final(self).wf(),
            final(self).text() == old(self).text(),
            final(self).pos() == number_end(old(self).text(), old(self).pos()),
            yields(
                r,
                Some(Scanned::Number { float: number_is_float(old(self).text(), old(self).pos()) }),
                old(self).text().subrange(old(self).pos() as int, final(self).pos() as int),
            ),
    {
        let (t, end) = scan_number(&self.chars, self.cursor, self.cursor);
        self.cursor = end;
        Some(t)
    }

    fn match_word(&mut self) -> (r: Option<Token>)
        requires
            old(self).wf(),
        ensures
            final(self).wf(),
            final(self).text() == old(self).text(),
            final(self).pos() == run_end(old(self).text(), old(self).pos(), CharClass::Word),
            yields(
                r,
                Some(Scanned::Word),
                old(self).text().subrange(old(self).pos() as int, final(self).pos() as int),
            ),
    {
        let (t, end) = scan_word(&self.chars, self.cursor);
        self.cursor = end;
        Some(t)
    }

    /// Consumes the operator character at the cursor, and a `=` after it.
    fn match_op(&mut self, single: Token, assign: Token) -> (r: Option<Token>)
        requires
            old(self).wf(),
            old(self).pos() < old(self).text().len(),
        ensures
            final(self).wf(),
            final(self).text() == old(self).text(),
            ({
                let (k, q) = lexer_op(old(self).text(), old(self).pos() + 1, single, assign);
                final(self).pos() == q && yields(r, k, Seq::empty())
            }),
    {
        self.consume_curr();
        match self.peek_curr() {
            Some('=') => {
                self.consume_curr();
                Some(assign)
            },
            _ => Some(single),
        }
    }

    /// The next token, layout included; `None` at the end of the text.
    pub fn next(&mut self) -> (r: Option<Token>)
        requires
            old(self).wf(),
        ensures
            final(self).wf(),
            final(self).text() == old(self).text(),
            ({
                let (k, q) = lex_step(old(self).text(), old(self).pos());
                &&& final(self).pos() == q
                &&& yields(r, k, old(self).text().subrange(old(self).pos() as int, q as int))
            }),
    {
        let c = match self.peek_curr() {
            Some(c) => c,
            None => return None,
        };
        if '0' <= c && c <= '9' {
            self.match_number()
        } else if ('a' <= c && c <= 'z') || ('A' <= c && c <= 'Z') || c == '_' {
            self.match_word()
        } else if c == '-' {
            match self.peek_ahead(1) {
                Some('>') => {
                    self.consume_curr();
                    self.consume_curr();
                    Some(Token::SingleArrow)
                },
                _ => self.match_op(Token::Minus, Token::MinusAssign),
            }
        } else if c == ':' {
            self.consume_curr();
            match self.peek_curr() {
                Some(':') => {
                    self.consume_curr();
                    Some(Token::ColonPath)
                },
                _ => Some(Token::Colon),
            }
        } else if c == '.' {
            self.consume_curr();
            match (self.peek_curr(), self.peek_ahead(1)) {
                (Some('.'), Some('.')) => {
                    self.consume_curr();
                    self.consume_curr();
                    Some(Token::TripleDots)
                },
                (Some('.'), _) => {
                    self.consume_curr();
                    Some(Token::DoubleDots)
                },
                _ => Some(Token::Dot),
            }
        } else if c == '=' {
            match self.peek_ahead(1) {
                Some('>') => {
                    self.consume_curr();
                    self.consume_curr();
                    Some(Token::DoubleArrow)
                },
                _ => self.match_op(Token::Assign, Token::Equal),
            }
        } else if c == '&' {
            match self.peek_ahead(1) {
                Some('&') => {
                    self.consume_curr();
                    self.match_op(Token::DoubleAmpersand, Token::DoubleAmpersandAssign)
                },
                _ => self.match_op(Token::Ampersand, Token::AmpersandAssign),
            }
        } else if c == '|' {
            match self.peek_ahead(1) {
                Some('|') => {
                    self.consume_curr();
                    self.match_op(Token::DoubleVerticalBar, Token::DoubleVerticalBarAssign)
                },
                _ => self.match_op(Token::VerticalBar, Token::VerticalBarAssign),
            }
        } else if c == '\t' {
            self.consume_curr();
            Some(Token::Tab)
        } else if c == ' ' {
            self.consume_curr();
            Some(Token::Space)
        } else if c == '\n' {
            self.consume_curr();
            Some(Token::Newline)
        } else {
            match single_char_token(c) {
                Some(t) => {
                    self.consume_curr();
                    Some(t)
                },
                None => match simple_op_tokens(c) {
                    Some((single, assign)) => self.match_op(single, assign),
                    None => None,
                },
            }
        }
    }
}

/// The filtered step recognises something only between its start position
/// and the end of the text, and moves forward when it does.
pub proof fn lemma_filtered_advances(s: Seq<char>, p: nat)
    requires
        p <= s.len(),
    ensures
        ({
            let (k, start, end) = filtered_step(s, p);
            k is Some ==> p <= start < end <= s.len()
        }),
    decreases s.len() - p,
{
    lemma_lex_step_advances(s, p);
    let (k, q) = lex_step(s, p);
    if k matches Some(Scanned::Fixed(t)) && t.layout() && p < q <= s.len() {
        lemma_filtered_advances(s, q);
    }
}

impl FilteredLexer {
    pub closed spec fn text(&self) -> Seq<char> {
        self.lexer.text()
    }

    pub closed spec fn pos(&self) -> nat {
        self.lexer.pos()
    }

    pub closed spec fn wf(&self) -> bool {
        self.lexer.wf()
    }

    pub proof fn lemma_pos_in_text(&self)
        requires
            self.wf(),
        ensures
            self.pos() <= self.text().len(),
    {
    }

    /// The next token that is not layout; `None` at the end of the text.
    pub fn next(&mut self) -> (r: Option<Token>)
        requires
            old(self).wf(),
        ensures
            final(self).wf(),
            final(self).text() == old(self).text(),
            ({
                let (k, start, end) = filtered_step(old(self).text(), old(self).pos());
                &&& final(self).pos() == end
                &&& yields(r, k, old(self).text().subrange(start as int, end as int))
            }),
    {
        loop
            invariant
                self.wf(),
                self.text() == old(self).text(),
                filtered_step(self.text(), self.pos()) == filtered_step(
                    old(self).text(),
                    old(self).pos(),
                ),
            decreases self.text().len() - self.pos(),
        {
            proof {
                lemma_lex_step_advances(self.text(), self.pos());
            }
            match self.lexer.next() {
                Some(t) => {
                    if !t.is_whitespace() {
                        return Some(t);
                    }
                },
                None => return None,
            }
        }
    }
}

} // verus!

//! The library's error values.

use crate::lex::token::{token_text, Token};
use crate::sym::types::Type;
use crate::text::{push_char, push_text};
use vstd::prelude::*;

verus! {

/// An operator was applied to operands whose types have no common numeric
/// type; `left` and `right` are the two types that were joined.
#[derive(Debug)]
pub struct CoercionError {
    pub left: Type,
    pub right: Type,
}

impl Clone for CoercionError {
    fn clone(&self) -> (r: Self)
        ensures
            r == *self,
    {
        CoercionError { left: self.left.clone(), right: self.right.clone() }
    }
}

/// Each token quoted and followed by a comma and a space.
pub open spec fn quoted_list(ts: Seq<Token>) -> Seq<char>
    decreases ts.len(),
{
    if ts.len() == 0 {
        Seq::empty()
    } else {
        quoted_list(ts.drop_last()) + seq!['\''] + token_text(ts.last()) + "', "@
    }
}

/// `s` without its last character, if it has one.
pub open spec fn drop_last_char(s: Seq<char>) -> Seq<char> {
    if s.len() == 0 {
        s
    } else {
        s.drop_last()
    }
}

/// The report of a syntax error: `expected`, the quoted expected tokens
/// without the final space, a newline, `got` and the token found.
pub open spec fn syntax_message(got: Token, expected: Seq<Token>) -> Seq<char> {
    "expected "@ + drop_last_char(quoted_list(expected)) + "\ngot "@ + token_text(got)
}

/// A token was found where one of `expected` was required.
#[derive(Debug)]
pub struct SyntaxError {
    pub got: Token,
    pub expected: Vec<Token>,
}

/// Relies on `String::pop`: the last character, if any, is removed.
#[verifier::external_body]
fn pop_char(s: &mut String)
    ensures
        final(s)@ == drop_last_char(old(s)@),
{
    s.pop();
}

impl SyntaxError {
    pub fn new(got: Token, expected: &[Token]) -> (r: SyntaxError)
        ensures
            r.got == got,
            r.expected@ == expected@,
    {
        let mut list: Vec<Token> = Vec::new();
        let mut i: usize = 0;
        while i < expected.len()
            invariant
                i <= expected@.len(),
                list@ == expected@.subrange(0, i as int),
            decreases expected@.len() - i,
        {
            list.push(expected[i].clone());
            i = i + 1;
            assert(list@ =~= expected@.subrange(0, i as int));
        }
        assert(list@ =~= expected@);
        SyntaxError { got, expected: list }
    }

    /// The report of this error, as `syntax_message` gives it.
    pub fn message(&self) -> (r: String)
        ensures
            r@ == syntax_message(self.got, self.expected@),
    {
        let mut list = String::new();
        let mut i: usize = 0;
        while i < self.expected.len()
            invariant
                i <= self.expected@.len(),
                list@ == quoted_list(self.expected@.subrange(0, i as int)),
            decreases self.expected@.len() - i,
        {
            let tok = self.expected[i].to_string();
            push_char(&mut list, '\'');
            push_text(&mut list, tok.as_str());
            push_text(&mut list, "', ");
            assert(self.expected@.subrange(0, i + 1).drop_last() =~= self.expected@.subrange(0, i as int));
            i = i + 1;
        }
        assert(self.expected@.subrange(0, i as int) =~= self.expected@);
        pop_char(&mut list);
        let mut out = String::new();
        push_text(&mut out, "expected ");
        push_text(&mut out, list.as_str());
        push_text(&mut out, "\ngot ");
        let got = self.got.to_string();
        push_text(&mut out, got.as_str());
        assert(out@ =~= syntax_message(self.got, self.expected@));
        out
    }
}

} // verus!

use crate::lex::token::Token;
use crate::sym::types::Type;
use vstd::prelude::*;

verus! {

/// A literal, with the token it was written as.
#[derive(Debug)]
pub struct Cons {
    pub tok: Token,
    pub tp: Type,
}

impl Clone for Cons {
    fn clone(&self) -> (r: Self)
        ensures
            r == *self,
    {
        Cons { tok: self.tok.clone(), tp: self.tp.clone() }
    }
}

} // verus!

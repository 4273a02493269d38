use crate::sym::types::Type;
use vstd::prelude::*;

verus! {

/// A declared storage location: its name, type and offset.
#[derive(Debug)]
pub struct Ident {
    pub id: String,
    pub tp: Type,
    pub offset: usize,
}

impl Clone for Ident {
    fn clone(&self) -> (r: Self)
        ensures
            r == *self,
    {
        Ident { id: self.id.clone(), tp: self.tp.clone(), offset: self.offset }
    }
}

} // verus!

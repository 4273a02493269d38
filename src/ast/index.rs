use crate::ast::{Expr, Ident};
use vstd::prelude::*;

verus! {

/// An indexed access `array[index]`. Its type is the array's declared type.
#[derive(Debug)]
pub struct Index {
    pub array: Ident,
    pub index: Box<Expr>,
}

impl Clone for Index {
    fn clone(&self) -> (r: Self)
        ensures
            r == *self,
    {
        Index { array: self.array.clone(), index: Box::new((*self.index).clone()) }
    }
}

} // verus!

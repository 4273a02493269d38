use crate::sym::types::Type;
use crate::text::{decimal, push_decimal, push_text};
use vstd::prelude::*;

verus! {

/// A compiler-generated value, written once by the instruction that
/// produced it.
#[derive(Debug)]
pub struct Temp {
    pub id: usize,
    pub tp: Type,
}

/// The name of the temporary with the given id: `__t` and the id in decimal.
pub open spec fn temp_name(id: nat) -> Seq<char> {
    "__t"@ + decimal(id)
}

impl Temp {
    /// Appends this temporary's name to `out`.
    pub fn write_name(&self, out: &mut String)
        ensures
            final(out)@ == old(out)@ + temp_name(self.id as nat),
    {
        push_text(out, "__t");
        push_decimal(out, self.id);
        assert(final(out)@ =~= old(out)@ + temp_name(self.id as nat));
    }
}

impl Clone for Temp {
    fn clone(&self) -> (r: Self)
        ensures
            r == *self,
    {
        Temp { id: self.id, tp: self.tp.clone() }
    }
}

} // verus!

use vstd::prelude::*;

verus! {

/// The two id counters of one compilation: temporaries are numbered from 0,
/// labels from 1, each without gaps.
pub struct IdAllocator {
    temps: usize,
    labels: usize,
}

impl IdAllocator {
    /// How many temporary ids have been handed out.
    pub closed spec fn temps_issued(self) -> nat {
        self.temps as nat
    }

    /// How many label ids have been handed out.
    pub closed spec fn labels_issued(self) -> nat {
        self.labels as nat
    }

    pub fn new() -> (r: IdAllocator)
        ensures
            r.temps_issued() == 0,
            r.labels_issued() == 0,
    {
        IdAllocator { temps: 0, labels: 0 }
    }
}

/// The next label id: one more than the number of labels handed out before.
pub fn new_label_id(ids: &mut IdAllocator) -> (r: usize)
    requires
        old(ids).labels_issued() < usize::MAX,
    ensures
        r == old(ids).labels_issued() + 1,
        final(ids).labels_issued() == old(ids).labels_issued() + 1,
        final(ids).temps_issued() == old(ids).temps_issued(),
{
    ids.labels = ids.labels + 1;
    ids.labels
}

/// The next temporary id: the number of temporaries handed out before.
pub fn new_temp_id(ids: &mut IdAllocator) -> (r: usize)
    requires
        old(ids).temps_issued() < usize::MAX,
    ensures
        r == old(ids).temps_issued(),
        final(ids).temps_issued() == old(ids).temps_issued() + 1,
        final(ids).labels_issued() == old(ids).labels_issued(),
{
    let id = ids.temps;
    ids.temps = ids.temps + 1;
    id
}

} // verus!

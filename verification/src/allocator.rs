//! The identifier allocator: a persisted counter that hands out strictly
//! increasing identifiers.

use crate::backing::{
    counter_get, counter_init, counter_region, counter_set, counter_value, region_index, Counter,
    Region,
};
use vstd::prelude::*;

verus! {

/// The persisted counter behind allocator-assigned identifiers.
pub struct IdAllocator {
    counter: Counter,
}

/// The identifier that follows `last`.
pub open spec fn next_id(last: u64) -> u64
    recommends
        last < u64::MAX,
{
    (last + 1) as u64
}

/// Of two identifiers allocated one after the other, the second is the larger.
pub proof fn lemma_successive_ids_increase(last: u64)
    requires
        last < u64::MAX,
        next_id(last) < u64::MAX,
    ensures
        last < next_id(last) < next_id(next_id(last)),
{
}

impl IdAllocator {
    /// The identifier issued last; zero where none was issued yet.
    pub closed spec fn last_issued(&self) -> u64 {
        counter_value(self.counter)
    }

    /// The index of the region that holds the counter.
    pub closed spec fn region(&self) -> u8 {
        counter_region(self.counter)
    }

    /// Opens the allocator on the counter that `region` holds.
    pub(crate) fn open(region: Region) -> (allocator: IdAllocator)
        ensures
            allocator.region() == region_index(region),
    {
        IdAllocator { counter: counter_init(region) }
    }

    /// The identifier issued last.
    pub fn last(&self) -> (id: u64)
        ensures
            id == self.last_issued(),
    {
        counter_get(&self.counter)
    }

    /// Issues the next identifier: one more than the last, persisted before it
    /// is returned, and larger than every identifier issued before.
    pub fn next(&mut self) -> (id: u64)
        requires
            old(self).last_issued() < u64::MAX,
        ensures
            id == next_id(old(self).last_issued()),
            id > old(self).last_issued(),
            final(self).last_issued() == id,
            final(self).region() == old(self).region(),
    {
        let id: u64 = counter_get(&self.counter) + 1;
        counter_set(&mut self.counter, id);
        id
    }
}

} // verus!

//! The identifier allocator: a counter that only moves forward.

use crate::types::{AllocationExhausted, KittyId};
use vstd::prelude::*;

verus! {

/// The single source of new identifiers. It holds the identifier that the
/// next allocation hands out.
#[derive(Clone, Debug, PartialEq, Eq)]
pub struct IdAllocator {
    next: KittyId,
}

impl View for IdAllocator {
    type V = KittyId;

    closed spec fn view(&self) -> KittyId {
        self.next
    }
}

/// What an allocation on the counter `next` returns.
pub open spec fn allocated(next: KittyId) -> Result<KittyId, AllocationExhausted> {
    if next < KittyId::MAX {
        Ok(next)
    } else {
        Err(AllocationExhausted)
    }
}

/// Where the counter `next` stands after an allocation.
pub open spec fn next_after(next: KittyId) -> KittyId {
    if next < KittyId::MAX {
        (next + 1) as KittyId
    } else {
        next
    }
}

impl IdAllocator {
    /// An allocator that starts at identifier 0.
    pub fn new() -> (allocator: IdAllocator)
        ensures
            allocator@ == 0,
    {
        IdAllocator { next: 0 }
    }

    /// An allocator whose next identifier is `next`.
    pub fn starting_at(next: KittyId) -> (allocator: IdAllocator)
        ensures
            allocator@ == next,
    {
        IdAllocator { next }
    }

    /// The identifier that the next allocation hands out.
    pub fn next(&self) -> (next: KittyId)
        ensures
            next == self@,
    {
        self.next
    }

    /// Hands out the counter's value and moves the counter one up. Where
    /// that would overflow, nothing is handed out and the counter stays.
    pub fn allocate(&mut self) -> (id: Result<KittyId, AllocationExhausted>)
        ensures
            id == allocated(old(self)@),
            final(self)@ == next_after(old(self)@),
            old(self)@ < KittyId::MAX ==> id == Ok::<KittyId, AllocationExhausted>(old(self)@)
                && final(self)@ == old(self)@ + 1,
            old(self)@ == KittyId::MAX ==> id == Err::<KittyId, AllocationExhausted>(
                AllocationExhausted,
            ) && final(self)@ == old(self)@,
    {
        let current_id = self.next;
        match self.next.checked_add(1) {
            Some(next) => {
                self.next = next;
                Ok(current_id)
            },
            None => Err(AllocationExhausted),
        }
    }
}

} // verus!

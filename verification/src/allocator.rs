//! Issues unique, monotonically increasing request identifiers.

use vstd::prelude::*;

use crate::types::RequestId;

verus! {

/// The successor of a request id, wrapping silently at the top of the range.
/// Wraparound is an accepted, practically unreachable edge case: an allocator
/// would have to hand out 2^64 ids before any id is reused.
pub open spec fn wrapping_inc(id: RequestId) -> RequestId {
    if id == RequestId::MAX {
        0
    } else {
        (id + 1) as RequestId
    }
}

/// Issues request identifiers: each successful post consumes exactly one, so
/// ids grow by one per request in insertion order.
pub struct RequestIdAllocator {
    next: RequestId,
}

impl RequestIdAllocator {
    /// The id the next call of `allocate` will return.
    pub closed spec fn next_id(&self) -> RequestId {
        self.next
    }

    /// A fresh allocator, starting from id zero.
    pub fn new() -> (r: RequestIdAllocator)
        ensures
            r.next_id() == 0,
    {
        RequestIdAllocator { next: 0 }
    }

    /// Returns the current counter value and advances the counter by one,
    /// wrapping on overflow.
    pub fn allocate(&mut self) -> (id: RequestId)
        ensures
            id == old(self).next_id(),
            final(self).next_id() == wrapping_inc(old(self).next_id()),
    {
        let id = self.next;
        self.next = if self.next == RequestId::MAX {
            0
        } else {
            self.next + 1
        };
        id
    }
}

} // verus!

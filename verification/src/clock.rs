//! The external time source consulted by `report_result`.

use vstd::prelude::*;

use crate::types::Timestamp;

verus! {

/// A clock supplied by the host.  Its only obligation is to report its own
/// view of the current moment; nothing is assumed about how that moment
/// advances.
pub trait Clock {
    /// The moment this clock currently shows.
    spec fn time(&self) -> Timestamp;

    /// Reads the clock.
    fn now(&self) -> (t: Timestamp)
        ensures
            t == self.time(),
    ;
}

/// A clock that shows whatever moment it was last set to; the clock of a
/// host that advances time itself.
pub struct FixedClock {
    timestamp: Timestamp,
}

impl Clock for FixedClock {
    closed spec fn time(&self) -> Timestamp {
        self.timestamp
    }

    fn now(&self) -> (t: Timestamp) {
        self.timestamp
    }
}

impl FixedClock {
    /// A clock showing `timestamp`.
    pub fn new(timestamp: Timestamp) -> (r: FixedClock)
        ensures
            r.time() == timestamp,
    {
        FixedClock { timestamp }
    }

    /// Moves the clock to `timestamp`.
    pub fn set_timestamp(&mut self, timestamp: Timestamp)
        ensures
            final(self).time() == timestamp,
    {
        self.timestamp = timestamp;
    }
}

} // verus!

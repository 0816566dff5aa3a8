//! Points in time on the application's monotonic clock.
use vstd::prelude::*;

verus! {

/// Nanoseconds in one millisecond.
pub const MILLISECOND: u64 = 1_000_000;

/// Nanoseconds in one second.
pub const SECOND: u64 = 1_000_000_000;

/// A reading of the monotonic clock, in nanoseconds since the clock's own origin.
#[derive(Clone, Copy, Debug, PartialEq, Eq, Structural)]
pub struct Instant {
    pub nanos: u64,
}

impl Instant {
    /// The time that passed since `earlier`, zero where `earlier` lies in the future.
    pub fn since(self, earlier: Instant) -> (elapsed: u64)
        ensures
            elapsed == self.spec_since(earlier),
    {
        self.nanos.saturating_sub(earlier.nanos)
    }

    pub open spec fn spec_since(self, earlier: Instant) -> u64 {
        if self.nanos >= earlier.nanos {
            (self.nanos - earlier.nanos) as u64
        } else {
            0
        }
    }

    /// Whether the clock can still count `span` nanoseconds from here.
    pub open spec fn reaches(self, span: u64) -> bool {
        self.nanos + span <= u64::MAX
    }

    /// The instant `span` nanoseconds later.
    pub open spec fn spec_after(self, span: u64) -> Instant {
        Instant { nanos: (self.nanos + span) as u64 }
    }

    /// The instant `span` nanoseconds later.
    pub fn after(self, span: u64) -> (later: Instant)
        requires
            self.reaches(span),
        ensures
            later == self.spec_after(span),
    {
        Instant { nanos: self.nanos + span }
    }
}

/// The earlier of two optional deadlines.
pub open spec fn spec_sooner(left: Option<Instant>, right: Option<Instant>) -> Option<Instant> {
    match (left, right) {
        (None, _) => right,
        (_, None) => left,
        (Some(a), Some(b)) => if a.nanos <= b.nanos {
            Some(a)
        } else {
            Some(b)
        },
    }
}

/// The earlier of two optional deadlines.
pub fn sooner(left: Option<Instant>, right: Option<Instant>) -> (first: Option<Instant>)
    ensures
        first == spec_sooner(left, right),
{
    match (left, right) {
        (None, _) => right,
        (_, None) => left,
        (Some(a), Some(b)) => if a.nanos <= b.nanos {
            Some(a)
        } else {
            Some(b)
        },
    }
}

} // verus!

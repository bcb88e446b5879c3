use vstd::prelude::*;

verus! {

/// Nanoseconds in one second.
pub const NANOS_PER_SECOND: u64 = 1_000_000_000;

/// A point in time, counted in nanoseconds since the epoch.
#[derive(Clone, Copy, Debug, PartialEq, Eq, Structural)]
pub struct Timestamp {
    pub nanos: u64,
}

impl Timestamp {
    /// Whole seconds since the epoch (the nanoseconds truncated).
    pub open spec fn secs(self) -> int {
        self.nanos as int / NANOS_PER_SECOND as int
    }

    pub fn from_nanos(nanos: u64) -> (r: Timestamp)
        ensures
            r.nanos == nanos,
    {
        Timestamp { nanos }
    }

    pub fn from_seconds(seconds: u64) -> (r: Timestamp)
        requires
            seconds * NANOS_PER_SECOND <= u64::MAX,
        ensures
            r.nanos == seconds * NANOS_PER_SECOND,
    {
        Timestamp { nanos: seconds * NANOS_PER_SECOND }
    }

    pub fn plus_seconds(&self, addition: u64) -> (r: Timestamp)
        requires
            self.nanos + addition * NANOS_PER_SECOND <= u64::MAX,
        ensures
            r.nanos == self.nanos + addition * NANOS_PER_SECOND,
    {
        Timestamp { nanos: self.nanos + addition * NANOS_PER_SECOND }
    }

    pub fn nanos(&self) -> (r: u64)
        ensures
            r == self.nanos,
    {
        self.nanos
    }

    pub fn seconds(&self) -> (r: u64)
        ensures
            r == self.secs(),
    {
        self.nanos / NANOS_PER_SECOND
    }
}

} // verus!

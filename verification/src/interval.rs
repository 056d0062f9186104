//! A span of time in whole seconds and nanoseconds.

use vstd::prelude::*;

verus! {

/// Number of nanoseconds in one second.
pub const NANOS_PER_SEC: u32 = 1_000_000_000;

/// Number of nanoseconds in one millisecond.
pub const NANOS_PER_MILLI: u32 = 1_000_000;

/// Number of milliseconds in one second.
pub const MILLIS_PER_SEC: u64 = 1_000;

/// A non-negative span of time: whole seconds plus a sub-second part in nanoseconds.
#[derive(Clone, Copy, Debug, PartialEq, Eq, Structural)]
pub struct Interval {
    pub secs: u64,
    pub nanos: u32,
}

impl Interval {
    /// The sub-second part is less than one second.
    pub open spec fn wf(self) -> bool {
        self.nanos < NANOS_PER_SEC
    }

    /// The span in nanoseconds.
    pub open spec fn total_nanos(self) -> nat {
        (self.secs * NANOS_PER_SEC + self.nanos) as nat
    }

    /// A span of `secs` whole seconds.
    pub fn from_secs(secs: u64) -> (r: Interval)
        ensures
            r == (Interval { secs, nanos: 0 }),
            r.wf(),
            r.total_nanos() == secs * NANOS_PER_SEC,
    {
        Interval { secs, nanos: 0 }
    }

    /// A span of `millis` milliseconds.
    pub fn from_millis(millis: u64) -> (r: Interval)
        ensures
            r.wf(),
            r.total_nanos() == millis * NANOS_PER_MILLI,
    {
        let secs: u64 = millis / MILLIS_PER_SEC;
        let rest: u64 = millis % MILLIS_PER_SEC;
        assert(millis == secs * 1_000 + rest);
        assert(rest * 1_000_000 < 1_000_000_000);
        let nanos: u32 = (rest as u32) * NANOS_PER_MILLI;
        assert(secs * 1_000_000_000 + rest * 1_000_000 == millis * 1_000_000);
        Interval { secs, nanos }
    }

    /// Whether the sub-second part is less than one second.
    pub fn is_valid(&self) -> (r: bool)
        ensures
            r == self.wf(),
    {
        self.nanos < NANOS_PER_SEC
    }
}

} // verus!

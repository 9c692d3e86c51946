//! Points in time, and the one place where the wall clock is read.

use vstd::prelude::*;

verus! {

/// The latest second the wall clock can report: the last second of the day
/// whose number, counted from the start of the common era, is `i32::MAX`.
pub const LATEST_CLOCK_SECS: i64 = 185_480_451_503_999;

/// A point in time: whole seconds since the Unix epoch, and the nanoseconds
/// that have passed within that second.
#[derive(Clone, Copy, Debug, PartialEq, Eq, Structural)]
pub struct Timestamp {
    pub secs: i64,
    pub nanos: u32,
}

impl Timestamp {
    /// The point `delta` seconds after `self`, where the seconds counter can
    /// hold it.
    pub open spec fn plus_secs(self, delta: int) -> Timestamp {
        Timestamp { secs: (self.secs + delta) as i64, nanos: self.nanos }
    }

    /// Whether `self` can be moved by `delta` seconds without leaving the
    /// range of the seconds counter.
    pub open spec fn can_add(self, delta: int) -> bool {
        i64::MIN <= self.secs + delta <= i64::MAX
    }

    /// Whether the wall clock can have reported `self`.
    pub open spec fn on_clock(self) -> bool {
        self.secs <= LATEST_CLOCK_SECS
    }

    pub fn new(secs: i64, nanos: u32) -> (t: Timestamp)
        ensures
            t.secs == secs,
            t.nanos == nanos,
    {
        Timestamp { secs, nanos }
    }

    /// The point `delta` seconds after `self`.
    pub fn plus(self, delta: i64) -> (r: Timestamp)
        requires
            self.can_add(delta as int),
        ensures
            r == self.plus_secs(delta as int),
    {
        Timestamp { secs: self.secs + delta, nanos: self.nanos }
    }
}

/// Reads the wall clock through `chrono::Utc::now`, and takes the result apart
/// with `DateTime::timestamp` and `DateTime::timestamp_subsec_nanos`.
///
/// Believed, not proved: the seconds are at most `LATEST_CLOCK_SECS`. `Utc::now`
/// builds its result with `DateTime::from_timestamp`, which refuses a day number
/// above `i32::MAX`, and `timestamp` gives back the seconds it was built from.
/// Nothing else is claimed: two readings may differ in any way.
#[verifier::external_body]
pub(crate) fn now() -> (t: Timestamp)
    ensures
        t.on_clock(),
{
    let t = chrono::Utc::now();
    Timestamp { secs: t.timestamp(), nanos: t.timestamp_subsec_nanos() }
}

} // verus!

//! Points in time, to the nanosecond.

use vstd::prelude::*;

verus! {

/// A point in time: whole seconds since the start of 1970 in UTC, and the
/// nanoseconds since the last whole second.
#[derive(Debug, Clone, Copy, PartialEq, Eq, Hash, Structural)]
pub struct Timestamp {
    pub secs: i64,
    pub nanos: u32,
}

impl Timestamp {
    /// Whether this point in time is `other` or comes before it.
    pub open spec fn at_or_before(self, other: Timestamp) -> bool {
        self.secs < other.secs || (self.secs == other.secs && self.nanos <= other.nanos)
    }

    /// This point in time moved forward by a number of seconds; `None` where
    /// the seconds no longer fit.
    pub open spec fn spec_plus_seconds(self, seconds: u64) -> Option<Timestamp> {
        if self.secs + seconds <= i64::MAX {
            Some(Timestamp { secs: (self.secs + seconds) as i64, nanos: self.nanos })
        } else {
            None
        }
    }

    /// Whether this point in time is `other` or comes before it.
    pub fn is_at_or_before(&self, other: &Timestamp) -> (r: bool)
        ensures
            r == self.at_or_before(*other),
    {
        self.secs < other.secs || (self.secs == other.secs && self.nanos <= other.nanos)
    }

    /// This point in time moved forward by a number of seconds; `None` where
    /// the seconds no longer fit.
    pub fn plus_seconds(&self, seconds: u64) -> (r: Option<Timestamp>)
        ensures
            r == self.spec_plus_seconds(seconds),
    {
        let sum: i128 = self.secs as i128 + seconds as i128;
        if sum <= i64::MAX as i128 {
            Some(Timestamp { secs: sum as i64, nanos: self.nanos })
        } else {
            None
        }
    }
}

/// The order of points in time is total, and moving forward in time never
/// moves a point before where it was.
pub proof fn lemma_time_order(a: Timestamp, b: Timestamp, c: Timestamp, seconds: u64)
    ensures
        a.at_or_before(a),
        a.at_or_before(b) || b.at_or_before(a),
        a.at_or_before(b) && b.at_or_before(a) ==> a == b,
        a.at_or_before(b) && b.at_or_before(c) ==> a.at_or_before(c),
        a.spec_plus_seconds(seconds) matches Some(later) ==> a.at_or_before(later),
{
}

} // verus!

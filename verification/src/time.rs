use vstd::prelude::*;

verus! {

/// An instant in UTC: whole seconds since 1970-01-01T00:00:00Z and the
/// nanoseconds past that second.
#[derive(Debug, Clone, Copy, PartialEq, Eq, Structural)]
pub struct Timestamp {
    pub seconds: i64,
    pub nanos: u32,
}

/// Chronological order of two instants.
pub open spec fn earlier(a: Timestamp, b: Timestamp) -> bool {
    a.seconds < b.seconds || (a.seconds == b.seconds && a.nanos < b.nanos)
}

impl Timestamp {
    pub fn is_before(&self, other: &Timestamp) -> (r: bool)
        ensures
            r == earlier(*self, *other),
    {
        self.seconds < other.seconds || (self.seconds == other.seconds && self.nanos < other.nanos)
    }
}

/// Seconds of 9999-12-31T23:59:59Z after the epoch.
pub const SAFE_MAX_SECONDS: i64 = 253402300799;

/// 1970-01-01T00:00:00Z, the earliest instant a query window may start at.
pub fn safe_min_datetime() -> (r: Timestamp)
    ensures
        r == (Timestamp { seconds: 0, nanos: 0 }),
{
    Timestamp { seconds: 0, nanos: 0 }
}

/// 9999-12-31T23:59:59Z, the latest instant a query window may end at.
pub fn safe_max_datetime() -> (r: Timestamp)
    ensures
        r == (Timestamp { seconds: SAFE_MAX_SECONDS, nanos: 0 }),
{
    Timestamp { seconds: SAFE_MAX_SECONDS, nanos: 0 }
}

} // verus!

//! Points in time and spans of time, in nanoseconds.

use vstd::prelude::*;

verus! {

/// A span of time (`std::time::Duration`), in nanoseconds.
#[derive(Clone, Copy, Debug, PartialEq, Eq, Structural)]
pub struct TimeSpan {
    pub nanos: u128,
}

impl TimeSpan {
    pub fn from_secs(secs: u64) -> (r: TimeSpan)
        ensures
            r.nanos == secs * 1_000_000_000,
    {
        TimeSpan { nanos: (secs as u128) * 1_000_000_000 }
    }

    pub fn from_millis(millis: u64) -> (r: TimeSpan)
        ensures
            r.nanos == millis * 1_000_000,
    {
        TimeSpan { nanos: (millis as u128) * 1_000_000 }
    }

    pub fn zero() -> (r: TimeSpan)
        ensures
            r.nanos == 0,
    {
        TimeSpan { nanos: 0 }
    }

    /// True for the zero span (`Duration::is_zero`).
    pub fn is_zero(&self) -> (r: bool)
        ensures
            r == (self.nanos == 0),
    {
        self.nanos == 0
    }
}

/// A point in time (`std::time::SystemTime`): whole seconds relative to the UNIX epoch plus
/// a sub-second nanosecond part.
#[derive(Clone, Copy, Debug, PartialEq, Eq, Structural)]
pub struct Timestamp {
    pub secs: i64,
    pub subsec_nanos: u32,
}

impl Timestamp {
    /// Nanoseconds relative to the UNIX epoch.
    pub open spec fn unix_nanos(self) -> int {
        self.secs * 1_000_000_000 + self.subsec_nanos
    }

    /// `UNIX_EPOCH + Duration::from_secs(secs)`.
    pub fn from_unix_secs(secs: u64) -> (r: Timestamp)
        requires
            secs <= i64::MAX,
        ensures
            r.unix_nanos() == secs * 1_000_000_000,
    {
        Timestamp { secs: secs as i64, subsec_nanos: 0 }
    }

    fn total_nanos(&self) -> (r: i128)
        ensures
            r == self.unix_nanos(),
    {
        (self.secs as i128) * 1_000_000_000 + (self.subsec_nanos as i128)
    }

    /// `self.duration_since(earlier)`: the elapsed span, or `None` when `earlier` is later.
    pub fn duration_since(&self, earlier: Timestamp) -> (r: Option<TimeSpan>)
        ensures
            match r {
                Some(d) => self.unix_nanos() >= earlier.unix_nanos() && d.nanos == self.unix_nanos()
                    - earlier.unix_nanos(),
                None => self.unix_nanos() < earlier.unix_nanos(),
            },
    {
        let a = self.total_nanos();
        let b = earlier.total_nanos();
        if a >= b {
            let diff: i128 = a - b;
            Some(TimeSpan { nanos: diff as u128 })
        } else {
            None
        }
    }
}

} // verus!

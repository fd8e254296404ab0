//! Timestamps as they appear in an event log, and the non-negative
//! durations derived from them for pacing.

use vstd::prelude::*;
use vstd::arithmetic::div_mod::lemma_fundamental_div_mod;

verus! {

/// A log timestamp: seconds and microseconds, both signed because the log
/// syntax admits a sign even though only non-negative values convert to a
/// duration.
#[derive(Debug, Clone, Copy, PartialEq, Eq, Structural)]
pub struct TimeVal {
    pub sec: i64,
    pub usec: i64,
}

/// A non-negative span of time: whole seconds plus a nanosecond remainder.
#[derive(Debug, Clone, Copy, PartialEq, Eq, Structural)]
pub struct Dur {
    pub secs: u64,
    pub nanos: u32,
}

impl Dur {
    /// A well-formed duration keeps its nanosecond part below one second.
    pub open spec fn wf(self) -> bool {
        self.nanos < 1_000_000_000
    }

    /// The duration's value as a whole number of nanoseconds.
    pub open spec fn total_nanos(self) -> int {
        self.secs * 1_000_000_000 + self.nanos
    }

    /// Builds a duration from seconds and nanoseconds, carrying surplus
    /// nanoseconds into the seconds field.
    pub fn new(secs: u64, nanos: u32) -> (r: Dur)
        requires
            secs + nanos as int / 1_000_000_000 <= u64::MAX,
        ensures
            r.wf(),
            r.total_nanos() == secs * 1_000_000_000 + nanos,
    {
        proof {
            lemma_fundamental_div_mod(nanos as int, 1_000_000_000);
        }
        let carry: u32 = nanos / 1_000_000_000;
        Dur { secs: secs + carry as u64, nanos: nanos % 1_000_000_000 }
    }

    /// Subtracts `other` from `self`, clamping at zero: the result is the
    /// real difference when `self` is the longer duration and zero
    /// otherwise, and by construction never negative.
    pub fn saturating_sub(self, other: Dur) -> (r: Dur)
        requires
            self.wf(),
            other.wf(),
        ensures
            r.wf(),
            r.total_nanos() == if self.total_nanos() >= other.total_nanos() {
                self.total_nanos() - other.total_nanos()
            } else {
                0
            },
    {
        if self.secs > other.secs || (self.secs == other.secs && self.nanos >= other.nanos) {
            if self.nanos >= other.nanos {
                Dur { secs: self.secs - other.secs, nanos: self.nanos - other.nanos }
            } else {
                Dur {
                    secs: self.secs - other.secs - 1,
                    nanos: (1_000_000_000 - other.nanos) + self.nanos,
                }
            }
        } else {
            Dur { secs: 0, nanos: 0 }
        }
    }
}

impl TimeVal {
    /// Holds when the timestamp can be represented as a duration: both
    /// fields non-negative and the microseconds small enough that, scaled
    /// to nanoseconds, they fit the nanosecond field.
    pub open spec fn convertible(self) -> bool {
        &&& 0 <= self.sec
        &&& 0 <= self.usec
        &&& self.usec * 1000 <= u32::MAX
    }

    /// The timestamp's value as a whole number of nanoseconds, defined for
    /// convertible timestamps.
    pub open spec fn as_nanos(self) -> int {
        self.sec * 1_000_000_000 + self.usec * 1000
    }

    /// Converts the timestamp to a duration: `sec` whole seconds plus
    /// `usec` microseconds, scaled to nanoseconds.
    pub fn to_duration(&self) -> (r: Dur)
        requires
            self.convertible(),
        ensures
            r.wf(),
            r.total_nanos() == self.as_nanos(),
            self.usec <= 999_999 ==> r.secs == self.sec && r.nanos == self.usec * 1000,
    {
        Dur::new(self.sec as u64, (self.usec * 1000) as u32)
    }

    /// Converts to a duration when possible, reporting an inconvertible
    /// timestamp instead of failing.
    pub fn checked_duration(&self) -> (r: Option<Dur>)
        ensures
            r is Some <==> self.convertible(),
            r is Some ==> r->0.wf() && r->0.total_nanos() == self.as_nanos(),
    {
        if self.sec >= 0 && self.usec >= 0 && self.usec <= 4_294_967 {
            Some(self.to_duration())
        } else {
            None
        }
    }
}

} // verus!

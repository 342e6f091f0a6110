//! A span of time with nanosecond resolution.
//!
//! The client's timeouts, back-off delays, cache lifetimes and cleanup
//! cut-offs are all spans of time. `TimeSpan` holds one as a whole number
//! of nanoseconds, over the same range as `std::time::Duration`
//! (`u64::MAX` seconds plus up to 999 999 999 nanoseconds).
use vstd::prelude::*;

verus! {

/// Nanoseconds per second.
pub const NANOS_PER_SEC: u128 = 1_000_000_000;

/// Largest number of nanoseconds a `TimeSpan` can hold.
pub const MAX_NANOS: u128 = 18_446_744_073_709_551_615_999_999_999;

/// A non-negative span of time, counted in nanoseconds.
#[derive(Debug, Clone, Copy, PartialEq, Eq, PartialOrd, Ord, Hash)]
pub struct TimeSpan {
    nanos: u128,
}

impl View for TimeSpan {
    type V = nat;

    /// The span, in nanoseconds.
    closed spec fn view(&self) -> nat {
        self.nanos as nat
    }
}

impl TimeSpan {
    #[verifier::type_invariant]
    spec fn within_range(self) -> bool {
        self.nanos <= MAX_NANOS
    }

    /// The empty span.
    pub fn zero() -> (r: TimeSpan)
        ensures
            r@ == 0,
    {
        TimeSpan { nanos: 0 }
    }

    /// `secs` whole seconds.
    pub fn from_secs(secs: u64) -> (r: TimeSpan)
        ensures
            r@ == secs * 1_000_000_000,
    {
        TimeSpan { nanos: secs as u128 * NANOS_PER_SEC }
    }

    /// `millis` milliseconds.
    pub fn from_millis(millis: u64) -> (r: TimeSpan)
        ensures
            r@ == millis * 1_000_000,
    {
        TimeSpan { nanos: millis as u128 * 1_000_000 }
    }

    /// `micros` microseconds.
    pub fn from_micros(micros: u64) -> (r: TimeSpan)
        ensures
            r@ == micros * 1_000,
    {
        TimeSpan { nanos: micros as u128 * 1_000 }
    }

    /// `nanos` nanoseconds.
    pub fn from_nanos(nanos: u64) -> (r: TimeSpan)
        ensures
            r@ == nanos,
    {
        TimeSpan { nanos: nanos as u128 }
    }

    /// `secs` seconds plus `nanos` nanoseconds; the nanoseconds may exceed a
    /// second and carry into the seconds, as long as the total stays in range.
    pub fn new(secs: u64, nanos: u32) -> (r: TimeSpan)
        requires
            secs as int + nanos as int / 1_000_000_000 <= u64::MAX,
        ensures
            r@ == secs * 1_000_000_000 + nanos,
    {
        let total = secs as u128 * NANOS_PER_SEC + nanos as u128;
        TimeSpan { nanos: total }
    }

    /// A span of exactly `nanos` nanoseconds, if that fits the range.
    pub fn try_from_nanos(nanos: u128) -> (r: Option<TimeSpan>)
        ensures
            r matches Some(t) ==> t@ == nanos,
            r is Some <==> nanos <= MAX_NANOS,
    {
        if nanos <= MAX_NANOS {
            Some(TimeSpan { nanos })
        } else {
            None
        }
    }

    /// Total nanoseconds.
    pub fn as_nanos(&self) -> (r: u128)
        ensures
            r == self@,
            r <= MAX_NANOS,
    {
        proof {
            use_type_invariant(self);
        }
        self.nanos
    }

    /// Whole milliseconds, rounded down.
    pub fn as_millis(&self) -> (r: u128)
        ensures
            r == self@ / 1_000_000,
    {
        self.nanos / 1_000_000
    }

    /// Whole seconds, rounded down.
    pub fn as_secs(&self) -> (r: u64)
        ensures
            r == self@ / 1_000_000_000,
    {
        proof {
            use_type_invariant(self);
        }
        (self.nanos / NANOS_PER_SEC) as u64
    }

    /// The nanoseconds past the last whole second.
    pub fn subsec_nanos(&self) -> (r: u32)
        ensures
            r == self@ % 1_000_000_000,
    {
        (self.nanos % NANOS_PER_SEC) as u32
    }

    /// Whether the span is empty.
    pub fn is_zero(&self) -> (r: bool)
        ensures
            r == (self@ == 0),
    {
        self.nanos == 0
    }
}

} // verus!

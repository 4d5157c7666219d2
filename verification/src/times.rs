//! Time values for the clock engine.
//!
//! Both types keep whole milliseconds in a `u64`: plenty of range for a chess
//! match, and exact integer arithmetic that the verifier can reason about.
//! `Duration` is a span of time; `Instant` is a point on some monotonic
//! timeline (the origin is whatever the driver chooses, typically process
//! start). The view of either is its millisecond count as a `nat`.

use vstd::prelude::*;

verus! {

/// Saturating sum of two millisecond counts, clamped to what a `u64` holds.
pub open spec fn sat_add_millis(a: nat, b: nat) -> nat {
    if a + b > u64::MAX { u64::MAX as nat } else { a + b }
}

/// Difference of two millisecond counts, floored at zero.
pub open spec fn sat_sub_millis(a: nat, b: nat) -> nat {
    if a >= b { (a - b) as nat } else { 0 }
}

/// A span of time, in whole milliseconds.
#[derive(Clone, Copy, PartialEq, Eq, Structural, Debug)]
pub struct Duration {
    millis: u64,
}

impl View for Duration {
    type V = nat;

    closed spec fn view(&self) -> nat {
        self.millis as nat
    }
}

impl Duration {
    /// The zero-length span.
    pub fn zero() -> (r: Duration)
        ensures
            r@ == 0,
    {
        Duration { millis: 0 }
    }

    /// A span of `millis` milliseconds.
    pub fn from_millis(millis: u64) -> (r: Duration)
        ensures
            r@ == millis,
    {
        Duration { millis }
    }

    /// A span of `secs` whole seconds.
    pub fn from_secs(secs: u64) -> (r: Duration)
        requires
            secs * 1000 <= u64::MAX,
        ensures
            r@ == secs * 1000,
    {
        Duration { millis: secs * 1000 }
    }

    /// The span in whole milliseconds.
    pub fn as_millis(&self) -> (r: u64)
        ensures
            r == self@,
    {
        self.millis
    }

    /// The span in whole seconds, fractional part dropped.
    pub fn as_secs(&self) -> (r: u64)
        ensures
            r == self@ / 1000,
    {
        self.millis / 1000
    }

    /// The fractional-second part, in milliseconds (0..=999).
    pub fn subsec_millis(&self) -> (r: u32)
        ensures
            r == self@ % 1000,
    {
        (self.millis % 1000) as u32
    }

    /// Whether the span is zero.
    pub fn is_zero(&self) -> (r: bool)
        ensures
            r == (self@ == 0),
    {
        self.millis == 0
    }

    /// Sum of two spans, clamped at the largest representable span.
    pub fn saturating_add(self, rhs: Duration) -> (r: Duration)
        ensures
            r@ == sat_add_millis(self@, rhs@),
    {
        if self.millis <= u64::MAX - rhs.millis {
            Duration { millis: self.millis + rhs.millis }
        } else {
            Duration { millis: u64::MAX }
        }
    }

    /// Difference of two spans, floored at zero.
    pub fn saturating_sub(self, rhs: Duration) -> (r: Duration)
        ensures
            r@ == sat_sub_millis(self@, rhs@),
    {
        if self.millis >= rhs.millis {
            Duration { millis: self.millis - rhs.millis }
        } else {
            Duration { millis: 0 }
        }
    }

    /// Sum of two spans, or `None` if it does not fit.
    pub fn checked_add(self, rhs: Duration) -> (r: Option<Duration>)
        ensures
            match r {
                Some(d) => self@ + rhs@ <= u64::MAX && d@ == self@ + rhs@,
                None => self@ + rhs@ > u64::MAX,
            },
    {
        if self.millis <= u64::MAX - rhs.millis {
            Some(Duration { millis: self.millis + rhs.millis })
        } else {
            None
        }
    }
}

/// A point on a monotonic timeline, `millis` milliseconds past its origin.
#[derive(Clone, Copy, PartialEq, Eq, Structural, Debug)]
pub struct Instant {
    millis: u64,
}

impl View for Instant {
    type V = nat;

    closed spec fn view(&self) -> nat {
        self.millis as nat
    }
}

impl Instant {
    /// The point `millis` milliseconds past the timeline's origin.
    pub fn from_millis(millis: u64) -> (r: Instant)
        ensures
            r@ == millis,
    {
        Instant { millis }
    }

    /// Milliseconds past the timeline's origin.
    pub fn as_millis(&self) -> (r: u64)
        ensures
            r == self@,
    {
        self.millis
    }

    /// Time from `earlier` to `self`, or zero if `earlier` is later.
    pub fn saturating_duration_since(self, earlier: Instant) -> (r: Duration)
        ensures
            r@ == sat_sub_millis(self@, earlier@),
    {
        if self.millis >= earlier.millis {
            Duration { millis: self.millis - earlier.millis }
        } else {
            Duration { millis: 0 }
        }
    }
}

} // verus!

//! Signed spans of time with nanosecond precision, bounded like the time
//! deltas of the calendar library the server uses: at most `i64::MAX`
//! milliseconds either way.

use vstd::prelude::*;

verus! {

/// The largest span, in nanoseconds: `i64::MAX` milliseconds.
pub const MAX_NANOS: i128 = 9_223_372_036_854_775_807_000_000i128;

/// Nanoseconds per second.
pub const NANOS_PER_SEC: i128 = 1_000_000_000i128;

/// A signed span of time in nanoseconds, between `-MAX_NANOS` and `MAX_NANOS`.
#[derive(Debug, Clone, Copy, PartialEq, Eq, Hash, Structural)]
pub struct Duration {
    nanos: i128,
}

impl View for Duration {
    type V = int;

    /// The span in nanoseconds.
    closed spec fn view(&self) -> int {
        self.nanos as int
    }
}

/// Whether `n` nanoseconds is a span that a `Duration` can hold.
pub open spec fn in_range(n: int) -> bool {
    -MAX_NANOS <= n <= MAX_NANOS
}

impl Duration {
    #[verifier::type_invariant]
    closed spec fn inv(self) -> bool {
        in_range(self.nanos as int)
    }

    /// The span of `n` nanoseconds (meaningful in the range).
    pub closed spec fn spec_from_nanos(n: int) -> Duration {
        Duration { nanos: n as i128 }
    }

    /// The span built from `n` nanoseconds in the range has length `n`.
    pub proof fn lemma_from_nanos(n: int)
        requires
            in_range(n),
        ensures
            #[trigger] Duration::spec_from_nanos(n)@ == n,
    {
    }

    /// A span is the span built from its length.
    pub proof fn lemma_view_from_nanos(d: Duration)
        ensures
            #[trigger] Duration::spec_from_nanos(d@) == d,
    {
    }

    /// The span of `n` nanoseconds.
    pub fn from_nanos(n: i128) -> (r: Duration)
        requires
            in_range(n as int),
        ensures
            r@ == n,
    {
        Duration { nanos: n }
    }

    /// The span of `n` nanoseconds, or `None` out of range.
    pub fn checked_from_nanos(n: i128) -> (r: Option<Duration>)
        ensures
            in_range(n as int) <==> r is Some,
            r matches Some(d) ==> d@ == n,
    {
        if -MAX_NANOS <= n && n <= MAX_NANOS {
            Some(Duration { nanos: n })
        } else {
            None
        }
    }

    /// The empty span.
    pub fn zero() -> (r: Duration)
        ensures
            r@ == 0,
    {
        Duration { nanos: 0 }
    }

    /// A span of `n` nanoseconds.
    pub fn nanoseconds(n: i64) -> (r: Duration)
        ensures
            r@ == n,
    {
        Duration { nanos: n as i128 }
    }

    /// A span of `s` seconds.
    pub fn seconds(s: i64) -> (r: Duration)
        requires
            in_range(s * NANOS_PER_SEC),
        ensures
            r@ == s * NANOS_PER_SEC,
    {
        Duration { nanos: s as i128 * NANOS_PER_SEC }
    }

    /// A span of `m` minutes.
    pub fn minutes(m: i64) -> (r: Duration)
        requires
            in_range(m * 60 * NANOS_PER_SEC),
        ensures
            r@ == m * 60 * NANOS_PER_SEC,
    {
        Duration { nanos: m as i128 * 60 * NANOS_PER_SEC }
    }

    /// A span of `h` hours.
    pub fn hours(h: i64) -> (r: Duration)
        requires
            in_range(h * 3600 * NANOS_PER_SEC),
        ensures
            r@ == h * 3600 * NANOS_PER_SEC,
    {
        Duration { nanos: h as i128 * 3600 * NANOS_PER_SEC }
    }

    /// The span in nanoseconds.
    pub fn as_nanos(&self) -> (r: i128)
        ensures
            r == self@,
            in_range(r as int),
    {
        proof { use_type_invariant(*self); }
        self.nanos
    }

    /// The whole seconds of the span, rounded toward zero.
    pub fn num_seconds(&self) -> (r: i64)
        ensures
            r == (if self@ >= 0 { self@ / (NANOS_PER_SEC as int) } else { -((-self@) / (NANOS_PER_SEC as int)) }),
    {
        proof { use_type_invariant(*self); }
        if self.nanos >= 0 {
            (self.nanos / NANOS_PER_SEC) as i64
        } else {
            -(((-self.nanos) / NANOS_PER_SEC) as i64)
        }
    }

    /// The sum of two spans.
    pub fn plus(self, other: Duration) -> (r: Duration)
        requires
            in_range(self@ + other@),
        ensures
            r@ == self@ + other@,
            r == Duration::spec_from_nanos(self@ + other@),
    {
        proof {
            use_type_invariant(self);
            use_type_invariant(other);
        }
        Duration { nanos: self.nanos + other.nanos }
    }

    /// The difference of two spans.
    pub fn minus(self, other: Duration) -> (r: Duration)
        requires
            in_range(self@ - other@),
        ensures
            r@ == self@ - other@,
            r == Duration::spec_from_nanos(self@ - other@),
    {
        proof {
            use_type_invariant(self);
            use_type_invariant(other);
        }
        Duration { nanos: self.nanos - other.nanos }
    }

    /// The span with its sign flipped.
    pub fn negated(self) -> (r: Duration)
        ensures
            r@ == -self@,
            r == Duration::spec_from_nanos(-self@),
    {
        proof { use_type_invariant(self); }
        Duration { nanos: -self.nanos }
    }

    /// Whether the span is longer than zero.
    pub fn is_positive(&self) -> (r: bool)
        ensures
            r == (self@ > 0),
    {
        self.nanos > 0
    }

    /// Whether the span is shorter than zero.
    pub fn is_negative(&self) -> (r: bool)
        ensures
            r == (self@ < 0),
    {
        self.nanos < 0
    }

    /// Whether `self` is longer than `other`.
    pub fn longer_than(&self, other: &Duration) -> (r: bool)
        ensures
            r == (self@ > other@),
    {
        self.nanos > other.nanos
    }
}

} // verus!

//! The balance of a work day or period: overtime, exactly the required
//! time, or undertime.

use vstd::prelude::*;
use vstd::std_specs::cmp::PartialEqSpecImpl;
use vstd::std_specs::ops::{AddSpecImpl, SubSpecImpl};
use crate::duration::{Duration, in_range};

verus! {

/// Overtime or undertime by a span, or exactly the required time.
#[derive(Debug, Clone, Copy)]
pub enum Balance {
    Overtime(Duration),
    Exact,
    UnderTime(Duration),
}

impl Balance {
    /// The signed surplus in nanoseconds: positive for overtime, negative for undertime.
    pub open spec fn delta(self) -> int {
        match self {
            Balance::Overtime(d) => d@,
            Balance::Exact => 0,
            Balance::UnderTime(d) => -d@,
        }
    }

    /// The balance that a signed surplus of `delta` nanoseconds is written as:
    /// overtime when positive, undertime (by the absolute value) when negative,
    /// `Exact` at zero.
    pub open spec fn canonical(self, delta: int) -> bool {
        if delta > 0 {
            self matches Balance::Overtime(d) && d@ == delta
        } else if delta < 0 {
            self matches Balance::UnderTime(d) && d@ == -delta
        } else {
            self is Exact
        }
    }

    /// The balance of working `actual` when `required` was due.
    pub fn calculate(actual: Duration, required: Duration) -> (r: Balance)
        requires
            in_range(actual@ - required@),
        ensures
            r.canonical(actual@ - required@),
    {
        let diff = actual.minus(required);
        Self::from_delta(diff)
    }

    /// The balance of a signed surplus.
    pub fn from_delta(delta: Duration) -> (r: Balance)
        ensures
            r.canonical(delta@),
            r == Balance::spec_from_delta(delta@),
    {
        proof { Duration::lemma_view_from_nanos(delta); }
        if delta.is_positive() {
            Balance::Overtime(delta)
        } else if delta.is_negative() {
            Balance::UnderTime(delta.negated())
        } else {
            Balance::Exact
        }
    }

    /// What `==` answers: equal variants with equal spans, or `Exact` against a
    /// zero overtime or a zero undertime.
    pub open spec fn same_as(self, other: Balance) -> bool {
        match (self, other) {
            (Balance::Exact, Balance::Exact) => true,
            (Balance::Exact, Balance::Overtime(d)) => d@ == 0,
            (Balance::Exact, Balance::UnderTime(d)) => d@ == 0,
            (Balance::Overtime(d), Balance::Exact) => d@ == 0,
            (Balance::UnderTime(d), Balance::Exact) => d@ == 0,
            (Balance::Overtime(a), Balance::Overtime(b)) => a@ == b@,
            (Balance::UnderTime(a), Balance::UnderTime(b)) => a@ == b@,
            _ => false,
        }
    }

    /// What `+` gives for two balances.
    pub open spec fn sum(self, rhs: Balance) -> Balance {
        match (self, rhs) {
            (Balance::Overtime(a), Balance::Overtime(b)) => Balance::Overtime(Duration::spec_from_nanos(a@ + b@)),
            (Balance::UnderTime(a), Balance::UnderTime(b)) => Balance::UnderTime(Duration::spec_from_nanos(a@ + b@)),
            (Balance::Overtime(a), Balance::UnderTime(b)) =>
                if a@ > b@ {
                    Balance::Overtime(Duration::spec_from_nanos(a@ - b@))
                } else if a@ == b@ {
                    Balance::Exact
                } else {
                    Balance::UnderTime(Duration::spec_from_nanos(b@ - a@))
                },
            (Balance::UnderTime(a), Balance::Overtime(b)) =>
                if a@ > b@ {
                    Balance::UnderTime(Duration::spec_from_nanos(a@ - b@))
                } else if a@ == b@ {
                    Balance::Exact
                } else {
                    Balance::Overtime(Duration::spec_from_nanos(b@ - a@))
                },
            (Balance::Exact, other) => other,
            (other, Balance::Exact) => other,
        }
    }

    /// What `-` gives for two balances.
    pub open spec fn difference(self, rhs: Balance) -> Balance {
        match (self, rhs) {
            (Balance::Overtime(a), Balance::Overtime(b)) =>
                if a@ > b@ {
                    Balance::Overtime(Duration::spec_from_nanos(a@ - b@))
                } else if a@ == b@ {
                    Balance::Exact
                } else {
                    Balance::UnderTime(Duration::spec_from_nanos(b@ - a@))
                },
            (Balance::Overtime(a), Balance::UnderTime(b)) => Balance::Overtime(Duration::spec_from_nanos(a@ + b@)),
            (Balance::UnderTime(a), Balance::Overtime(b)) => Balance::UnderTime(Duration::spec_from_nanos(a@ + b@)),
            (Balance::UnderTime(a), Balance::UnderTime(b)) =>
                if a@ > b@ {
                    Balance::UnderTime(Duration::spec_from_nanos(a@ - b@))
                } else if a@ == b@ {
                    Balance::Exact
                } else {
                    Balance::Overtime(Duration::spec_from_nanos(b@ - a@))
                },
            (Balance::Exact, Balance::Overtime(b)) => Balance::UnderTime(b),
            (Balance::Exact, Balance::UnderTime(b)) => Balance::Overtime(b),
            (Balance::Exact, Balance::Exact) => Balance::Exact,
            (other, Balance::Exact) => other,
        }
    }
}

impl PartialEq for Balance {
    fn eq(&self, other: &Self) -> (r: bool) {
        match (self, other) {
            (Balance::Exact, Balance::Exact) => true,
            (Balance::Exact, Balance::Overtime(dur)) => !dur.is_positive() && !dur.is_negative(),
            (Balance::Exact, Balance::UnderTime(dur)) => !dur.is_positive() && !dur.is_negative(),
            (Balance::Overtime(dur), Balance::Exact) => !dur.is_positive() && !dur.is_negative(),
            (Balance::UnderTime(dur), Balance::Exact) => !dur.is_positive() && !dur.is_negative(),
            (Balance::Overtime(lhs), Balance::Overtime(rhs)) => lhs.as_nanos() == rhs.as_nanos(),
            (Balance::UnderTime(lhs), Balance::UnderTime(rhs)) => lhs.as_nanos() == rhs.as_nanos(),
            _ => false,
        }
    }
}

impl PartialEqSpecImpl for Balance {
    open spec fn obeys_eq_spec() -> bool {
        true
    }

    open spec fn eq_spec(&self, other: &Balance) -> bool {
        self.same_as(*other)
    }
}

impl Eq for Balance {}

impl core::ops::Add for Balance {
    type Output = Balance;

    fn add(self, rhs: Balance) -> (r: Balance) {
        match (self, rhs) {
            (Balance::Overtime(lhs_dur), Balance::Overtime(rhs_dur)) => Balance::Overtime(lhs_dur.plus(rhs_dur)),
            (Balance::UnderTime(lhs_dur), Balance::UnderTime(rhs_dur)) => Balance::UnderTime(lhs_dur.plus(rhs_dur)),
            (Balance::Overtime(lhs_dur), Balance::UnderTime(rhs_dur)) => {
                if lhs_dur.longer_than(&rhs_dur) {
                    Balance::Overtime(lhs_dur.minus(rhs_dur))
                } else if lhs_dur.as_nanos() == rhs_dur.as_nanos() {
                    Balance::Exact
                } else {
                    Balance::UnderTime(rhs_dur.minus(lhs_dur))
                }
            },
            (Balance::UnderTime(lhs_dur), Balance::Overtime(rhs_dur)) => {
                if lhs_dur.longer_than(&rhs_dur) {
                    Balance::UnderTime(lhs_dur.minus(rhs_dur))
                } else if lhs_dur.as_nanos() == rhs_dur.as_nanos() {
                    Balance::Exact
                } else {
                    Balance::Overtime(rhs_dur.minus(lhs_dur))
                }
            },
            (Balance::Exact, other) => other,
            (other, Balance::Exact) => other,
        }
    }
}

impl AddSpecImpl for Balance {
    open spec fn obeys_add_spec() -> bool {
        true
    }

    /// No span of the computation leaves the range.
    open spec fn add_req(self, rhs: Balance) -> bool {
        in_range(self.delta() + rhs.delta())
    }

    open spec fn add_spec(self, rhs: Balance) -> Balance {
        self.sum(rhs)
    }
}

impl core::ops::Sub for Balance {
    type Output = Balance;

    fn sub(self, rhs: Balance) -> (r: Balance) {
        match (self, rhs) {
            (Balance::Overtime(lhs_dur), Balance::Overtime(rhs_dur)) => {
                if lhs_dur.longer_than(&rhs_dur) {
                    Balance::Overtime(lhs_dur.minus(rhs_dur))
                } else if lhs_dur.as_nanos() == rhs_dur.as_nanos() {
                    Balance::Exact
                } else {
                    Balance::UnderTime(rhs_dur.minus(lhs_dur))
                }
            },
            (Balance::Overtime(lhs_dur), Balance::UnderTime(rhs_dur)) => Balance::Overtime(lhs_dur.plus(rhs_dur)),
            (Balance::UnderTime(lhs_dur), Balance::Overtime(rhs_dur)) => Balance::UnderTime(lhs_dur.plus(rhs_dur)),
            (Balance::UnderTime(lhs_dur), Balance::UnderTime(rhs_dur)) => {
                if lhs_dur.longer_than(&rhs_dur) {
                    Balance::UnderTime(lhs_dur.minus(rhs_dur))
                } else if lhs_dur.as_nanos() == rhs_dur.as_nanos() {
                    Balance::Exact
                } else {
                    Balance::Overtime(rhs_dur.minus(lhs_dur))
                }
            },
            (Balance::Exact, Balance::Overtime(rhs_dur)) => Balance::UnderTime(rhs_dur),
            (Balance::Exact, Balance::UnderTime(rhs_dur)) => Balance::Overtime(rhs_dur),
            (Balance::Exact, Balance::Exact) => Balance::Exact,
            (other, Balance::Exact) => other,
        }
    }
}

impl SubSpecImpl for Balance {
    open spec fn obeys_sub_spec() -> bool {
        true
    }

    /// No span of the computation leaves the range.
    open spec fn sub_req(self, rhs: Balance) -> bool {
        in_range(self.delta() - rhs.delta())
    }

    open spec fn sub_spec(self, rhs: Balance) -> Balance {
        self.difference(rhs)
    }
}

impl core::ops::Add<Duration> for Balance {
    type Output = Balance;

    /// Shifts the balance by a signed span.
    fn add(self, rhs: Duration) -> (r: Balance) {
        let delta = match self {
            Balance::Overtime(dur) => dur,
            Balance::UnderTime(dur) => dur.negated(),
            Balance::Exact => Duration::zero(),
        };
        Self::from_delta(delta.plus(rhs))
    }
}

impl AddSpecImpl<Duration> for Balance {
    open spec fn obeys_add_spec() -> bool {
        true
    }

    /// The shifted surplus stays in the range.
    open spec fn add_req(self, rhs: Duration) -> bool {
        in_range(self.delta() + rhs@)
    }

    /// The balance of the shifted surplus.
    open spec fn add_spec(self, rhs: Duration) -> Balance {
        Balance::spec_from_delta(self.delta() + rhs@)
    }
}

impl core::ops::Sub<Duration> for Balance {
    type Output = Balance;

    /// Shifts the balance by the negated span.
    fn sub(self, rhs: Duration) -> (r: Balance) {
        self + rhs.negated()
    }
}

impl SubSpecImpl<Duration> for Balance {
    open spec fn obeys_sub_spec() -> bool {
        true
    }

    /// The shifted surplus stays in the range.
    open spec fn sub_req(self, rhs: Duration) -> bool {
        in_range(self.delta() - rhs@)
    }

    /// The balance of the shifted surplus.
    open spec fn sub_spec(self, rhs: Duration) -> Balance {
        Balance::spec_from_delta(self.delta() - rhs@)
    }
}

impl Balance {
    /// The canonical balance of a signed surplus in the range.
    pub open spec fn spec_from_delta(delta: int) -> Balance {
        if delta > 0 {
            Balance::Overtime(Duration::spec_from_nanos(delta))
        } else if delta < 0 {
            Balance::UnderTime(Duration::spec_from_nanos(-delta))
        } else {
            Balance::Exact
        }
    }

    /// A balance whose span is not negative (as every computed balance is).
    pub open spec fn well_formed(self) -> bool {
        match self {
            Balance::Overtime(d) => d@ >= 0,
            Balance::Exact => true,
            Balance::UnderTime(d) => d@ >= 0,
        }
    }
}

/// `from_delta` writes a surplus canonically.
pub proof fn lemma_from_delta_canonical(delta: int)
    requires
        in_range(delta),
    ensures
        Balance::spec_from_delta(delta).canonical(delta),
        Balance::spec_from_delta(delta).delta() == delta,
        Balance::spec_from_delta(delta).well_formed(),
{
    Duration::lemma_from_nanos(delta);
    Duration::lemma_from_nanos(-delta);
}

/// Adding balances adds their surpluses.
pub proof fn lemma_sum_delta(a: Balance, b: Balance)
    requires
        in_range(a.delta() + b.delta()),
    ensures
        a.sum(b).delta() == a.delta() + b.delta(),
{
    match (a, b) {
        (Balance::Overtime(x), Balance::Overtime(y)) => Duration::lemma_from_nanos(x@ + y@),
        (Balance::UnderTime(x), Balance::UnderTime(y)) => Duration::lemma_from_nanos(x@ + y@),
        (Balance::Overtime(x), Balance::UnderTime(y)) => {
            Duration::lemma_from_nanos(x@ - y@);
            Duration::lemma_from_nanos(y@ - x@);
        },
        (Balance::UnderTime(x), Balance::Overtime(y)) => {
            Duration::lemma_from_nanos(x@ - y@);
            Duration::lemma_from_nanos(y@ - x@);
        },
        _ => {},
    }
}

/// Subtracting balances subtracts their surpluses.
pub proof fn lemma_difference_delta(a: Balance, b: Balance)
    requires
        in_range(a.delta() - b.delta()),
    ensures
        a.difference(b).delta() == a.delta() - b.delta(),
{
    match (a, b) {
        (Balance::Overtime(x), Balance::UnderTime(y)) => Duration::lemma_from_nanos(x@ + y@),
        (Balance::UnderTime(x), Balance::Overtime(y)) => Duration::lemma_from_nanos(x@ + y@),
        (Balance::Overtime(x), Balance::Overtime(y)) => {
            Duration::lemma_from_nanos(x@ - y@);
            Duration::lemma_from_nanos(y@ - x@);
        },
        (Balance::UnderTime(x), Balance::UnderTime(y)) => {
            Duration::lemma_from_nanos(x@ - y@);
            Duration::lemma_from_nanos(y@ - x@);
        },
        _ => {},
    }
}

/// Adding balances is commutative.
pub proof fn lemma_sum_commutative(a: Balance, b: Balance)
    ensures
        a.sum(b) == b.sum(a),
{
    match (a, b) {
        (Balance::Overtime(x), Balance::Overtime(y)) => assert(x@ + y@ == y@ + x@),
        (Balance::UnderTime(x), Balance::UnderTime(y)) => assert(x@ + y@ == y@ + x@),
        _ => {},
    }
}

/// The sum of well-formed balances is well formed.
proof fn lemma_sum_well_formed(a: Balance, b: Balance)
    requires
        a.well_formed(),
        b.well_formed(),
        in_range(a.delta() + b.delta()),
    ensures
        a.sum(b).well_formed(),
{
    match (a, b) {
        (Balance::Overtime(x), Balance::Overtime(y)) => Duration::lemma_from_nanos(x@ + y@),
        (Balance::UnderTime(x), Balance::UnderTime(y)) => Duration::lemma_from_nanos(x@ + y@),
        (Balance::Overtime(x), Balance::UnderTime(y)) => {
            Duration::lemma_from_nanos(x@ - y@);
            Duration::lemma_from_nanos(y@ - x@);
        },
        (Balance::UnderTime(x), Balance::Overtime(y)) => {
            Duration::lemma_from_nanos(x@ - y@);
            Duration::lemma_from_nanos(y@ - x@);
        },
        _ => {},
    }
}

/// Adding well-formed balances is associative up to `==`.
pub proof fn lemma_sum_associative(a: Balance, b: Balance, c: Balance)
    requires
        a.well_formed(),
        b.well_formed(),
        c.well_formed(),
        in_range(a.delta() + b.delta()),
        in_range(b.delta() + c.delta()),
        in_range(a.delta() + b.delta() + c.delta()),
    ensures
        a.sum(b).sum(c).same_as(a.sum(b.sum(c))),
{
    lemma_sum_delta(a, b);
    lemma_sum_delta(b, c);
    lemma_sum_delta(a.sum(b), c);
    lemma_sum_delta(a, b.sum(c));
    lemma_sum_well_formed(a, b);
    lemma_sum_well_formed(b, c);
    lemma_sum_well_formed(a.sum(b), c);
    lemma_sum_well_formed(a, b.sum(c));
    let l = a.sum(b).sum(c);
    let r = a.sum(b.sum(c));
    if l.delta() != 0 {
        // Non-zero surplus: both sides are the same variant.
    } else {
        lemma_zero_sum_exact(a, b, c);
    }
}

/// At a zero total, the two groupings never give a zero overtime on one side
/// and a zero undertime on the other.
proof fn lemma_zero_sum_exact(a: Balance, b: Balance, c: Balance)
    requires
        a.well_formed(),
        b.well_formed(),
        c.well_formed(),
        in_range(a.delta() + b.delta()),
        in_range(b.delta() + c.delta()),
        a.delta() + b.delta() + c.delta() == 0,
    ensures
        a.sum(b).sum(c).same_as(a.sum(b.sum(c))),
{
    lemma_sum_delta(a, b);
    lemma_sum_delta(b, c);
    lemma_sum_delta(a.sum(b), c);
    lemma_sum_delta(a, b.sum(c));
    lemma_sum_well_formed(a, b);
    lemma_sum_well_formed(b, c);
    lemma_sum_well_formed(a.sum(b), c);
    lemma_sum_well_formed(a, b.sum(c));
}

} // verus!

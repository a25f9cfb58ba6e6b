//! A span of time in whole nanoseconds, with arithmetic that saturates.
//!
//! Rate-limiter state lives as long as the process does, so no operation on a
//! span may overflow, wrap or fail: sums and products stop at the largest span
//! that fits, differences stop at zero.
use core::cmp::Ordering;
use core::ops::{Add, Mul, Sub};
use core::time::Duration;
use vstd::prelude::*;
use vstd::string::StringExecFns;

verus! {

/// The number of whole nanoseconds that a `Duration` holds.
pub uninterp spec fn duration_nanos(d: Duration) -> nat;

/// `Duration::as_nanos` returns the total number of nanoseconds in the duration.
pub assume_specification[ Duration::as_nanos ](d: &Duration) -> (n: u128)
    ensures
        n == duration_nanos(*d),
;

/// `Duration::from_nanos` builds the duration that holds exactly `nanos` nanoseconds.
pub assume_specification[ Duration::from_nanos ](nanos: u64) -> (d: Duration)
    ensures
        duration_nanos(d) == nanos,
;

/// The text that `{:?}` writes for a `Duration` of `nanos` nanoseconds.
pub uninterp spec fn duration_debug_text(nanos: nat) -> Seq<char>;

/// `format!` with `{:?}` writes a `Duration` as its `Debug` impl does, and
/// that text depends on nothing but the nanoseconds the duration holds.
#[verifier::external_body]
fn duration_debug(d: &Duration) -> (text: String)
    ensures
        text@ == duration_debug_text(duration_nanos(*d)),
{
    format!("{:?}", d)
}

/// The largest number of nanoseconds that a span can hold.
pub open spec fn limit() -> nat {
    u64::MAX as nat
}

/// `a + b`, stopped at the largest span.
pub open spec fn saturating_sum(a: nat, b: nat) -> nat {
    if a + b > limit() {
        limit()
    } else {
        a + b
    }
}

/// `a - b`, stopped at zero.
pub open spec fn saturating_difference(a: nat, b: nat) -> nat {
    if a <= b {
        0
    } else {
        (a - b) as nat
    }
}

/// `a * b`, stopped at the largest span.
pub open spec fn saturating_product(a: nat, b: nat) -> nat {
    if a * b > limit() {
        limit()
    } else {
        a * b
    }
}

/// A non-negative span of time, counted in nanoseconds.
#[derive(Clone, Copy, Debug, PartialEq, Eq, Structural, Ord, Hash)]
pub struct Nanos(pub(crate) u64);

impl View for Nanos {
    type V = nat;

    open(crate) spec fn view(&self) -> nat {
        self.0 as nat
    }
}

impl Nanos {
    /// The span of `n` nanoseconds.
    pub fn new(n: u64) -> (r: Nanos)
        ensures
            r@ == n,
    {
        Nanos(n)
    }

    /// The number of nanoseconds in the span.
    pub fn as_u64(self) -> (n: u64)
        ensures
            n == self@,
    {
        self.0
    }

    /// The span left after taking `rhs` away, or the empty span where `rhs` is the longer one.
    pub fn saturating_sub(self, rhs: Nanos) -> (r: Nanos)
        ensures
            r@ == saturating_difference(self@, rhs@),
            self@ <= rhs@ ==> r@ == 0,
    {
        Nanos(self.0.saturating_sub(rhs.0))
    }

    /// The shorter of two spans.
    pub fn min(self, other: Nanos) -> (r: Nanos)
        ensures
            r == (if other@ < self@ { other } else { self }),
    {
        if other < self {
            other
        } else {
            self
        }
    }

    /// The longer of two spans.
    pub fn max(self, other: Nanos) -> (r: Nanos)
        ensures
            r == (if other@ < self@ { self } else { other }),
    {
        if other < self {
            self
        } else {
            other
        }
    }
}

impl vstd::std_specs::cmp::PartialOrdSpecImpl for Nanos {
    open spec fn obeys_partial_cmp_spec() -> bool {
        true
    }

    open spec fn partial_cmp_spec(&self, other: &Nanos) -> Option<Ordering> {
        if self@ < other@ {
            Some(Ordering::Less)
        } else if self@ == other@ {
            Some(Ordering::Equal)
        } else {
            Some(Ordering::Greater)
        }
    }
}

impl PartialOrd for Nanos {
    /// Spans are ordered by their length.
    fn partial_cmp(&self, other: &Nanos) -> (r: Option<Ordering>) {
        if self.0 < other.0 {
            Some(Ordering::Less)
        } else if self.0 == other.0 {
            Some(Ordering::Equal)
        } else {
            Some(Ordering::Greater)
        }
    }
}

impl vstd::std_specs::ops::SubSpecImpl<Nanos> for Nanos {
    open spec fn obeys_sub_spec() -> bool {
        true
    }

    open spec fn sub_req(self, rhs: Nanos) -> bool {
        true
    }

    open(crate) spec fn sub_spec(self, rhs: Nanos) -> Nanos {
        Nanos(saturating_difference(self@, rhs@) as u64)
    }
}

impl Sub<Nanos> for Nanos {
    type Output = Nanos;

    /// The span left after taking `rhs` away, stopped at the empty span.
    fn sub(self, rhs: Nanos) -> (r: Nanos)
        ensures
            r@ == saturating_difference(self@, rhs@),
            self@ <= rhs@ ==> r@ == 0,
    {
        self.saturating_sub(rhs)
    }
}

impl vstd::std_specs::ops::AddSpecImpl<Nanos> for Nanos {
    open spec fn obeys_add_spec() -> bool {
        true
    }

    open spec fn add_req(self, rhs: Nanos) -> bool {
        true
    }

    open(crate) spec fn add_spec(self, rhs: Nanos) -> Nanos {
        Nanos(saturating_sum(self@, rhs@) as u64)
    }
}

impl Add<Nanos> for Nanos {
    type Output = Nanos;

    /// The two spans laid end to end, stopped at the largest span.
    fn add(self, rhs: Nanos) -> (r: Nanos)
        ensures
            r@ == saturating_sum(self@, rhs@),
            self@ + rhs@ > limit() ==> r@ == limit(),
    {
        Nanos(self.0.saturating_add(rhs.0))
    }
}

impl vstd::std_specs::ops::MulSpecImpl<u64> for Nanos {
    open spec fn obeys_mul_spec() -> bool {
        true
    }

    open spec fn mul_req(self, rhs: u64) -> bool {
        true
    }

    open(crate) spec fn mul_spec(self, rhs: u64) -> Nanos {
        Nanos(saturating_product(self@, rhs as nat) as u64)
    }
}

impl Mul<u64> for Nanos {
    type Output = Nanos;

    /// The span repeated `rhs` times, stopped at the largest span.
    fn mul(self, rhs: u64) -> (r: Nanos)
        ensures
            r@ == saturating_product(self@, rhs as nat),
    {
        match self.0.checked_mul(rhs) {
            Some(n) => Nanos(n),
            None => Nanos(u64::MAX),
        }
    }
}

impl vstd::std_specs::convert::FromSpecImpl<u64> for Nanos {
    open spec fn obeys_from_spec() -> bool {
        true
    }

    open(crate) spec fn from_spec(n: u64) -> Nanos {
        Nanos(n)
    }
}

impl From<u64> for Nanos {
    fn from(n: u64) -> (r: Nanos)
        ensures
            r@ == n,
    {
        Nanos(n)
    }
}

impl vstd::std_specs::convert::FromSpecImpl<Duration> for Nanos {
    open spec fn obeys_from_spec() -> bool {
        true
    }

    open(crate) spec fn from_spec(d: Duration) -> Nanos {
        Nanos(saturating_sum(duration_nanos(d), 0) as u64)
    }
}

impl From<Duration> for Nanos {
    /// The span of a `Duration`, stopped at the largest span.
    fn from(d: Duration) -> (r: Nanos)
        ensures
            r@ == saturating_sum(duration_nanos(d), 0),
    {
        let n: u128 = d.as_nanos();
        if n > u64::MAX as u128 {
            Nanos(u64::MAX)
        } else {
            Nanos(n as u64)
        }
    }
}

impl Nanos {
    /// The span in words: `Nanos(`, the span as a `Duration` writes itself,
    /// and `)`.
    pub fn to_string(&self) -> (text: String)
        ensures
            text@ == "Nanos("@ + duration_debug_text(self@) + ")"@,
    {
        let d = self.to_duration();
        let text = String::from_str("Nanos(");
        let text = text.concat(duration_debug(&d).as_str());
        text.concat(")")
    }

    /// The `Duration` of exactly this many nanoseconds.
    pub fn to_duration(self) -> (d: Duration)
        ensures
            duration_nanos(d) == self@,
    {
        Duration::from_nanos(self.0)
    }
}

} // verus!

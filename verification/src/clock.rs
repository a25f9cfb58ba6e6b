//! Points in time, as the rate limiter needs them: instants of one clock
//! that can be told apart, moved forward and measured against each other.
use crate::nanos::{saturating_difference, saturating_sum, Nanos};
use vstd::prelude::*;

verus! {

/// An instant read from a clock.
///
/// Every instant lies some span after the clock's origin, and that span is
/// all the rate limiter looks at. Arithmetic on instants saturates like the
/// arithmetic on spans: it never fails.
pub trait Reference: Sized + Copy {
    /// The span from the clock's origin to this instant.
    spec fn since_origin(&self) -> Nanos;

    /// The span from `earlier` to this instant, or the empty span where
    /// `earlier` is in fact the later of the two.
    fn duration_since(&self, earlier: Self) -> (d: Nanos)
        ensures
            d@ == saturating_difference(self.since_origin()@, earlier.since_origin()@),
    ;

    /// The instant that lies `span` after this one, or the last instant
    /// of the clock where that would lie beyond it.
    fn advanced_by(self, span: Nanos) -> (later: Self)
        ensures
            later.since_origin()@ == saturating_sum(self.since_origin()@, span@),
    ;

    /// The earlier of two instants; this one where they coincide.
    fn earlier_of(self, other: Self) -> (first: Self)
        ensures
            first == (if other.since_origin()@ < self.since_origin()@ {
                other
            } else {
                self
            }),
    ;
}

/// A span counts as an instant: the one that lies that span after the origin.
impl Reference for Nanos {
    open spec fn since_origin(&self) -> Nanos {
        *self
    }

    fn duration_since(&self, earlier: Nanos) -> (d: Nanos) {
        self.saturating_sub(earlier)
    }

    fn advanced_by(self, span: Nanos) -> (later: Nanos) {
        self + span
    }

    fn earlier_of(self, other: Nanos) -> (first: Nanos) {
        self.min(other)
    }
}

} // verus!

//! What a decision carries back to the caller.
//!
//! The rate limiter hands each decision, with a snapshot of the state it
//! was taken on, to a middleware; what the middleware makes of it is what
//! the caller gets.
use crate::clock::Reference;
use crate::gcra::NotUntil;
use crate::nanos::Nanos;
use crate::quota::Quota;
use core::marker::PhantomData;
use vstd::prelude::*;

verus! {

/// The state of a bucket at the moment of a decision, and the parameters
/// the decision was taken with.
#[derive(Clone, Copy, Debug, PartialEq, Eq, Structural)]
pub struct StateSnapshot {
    /// The time cost of one cell.
    pub(crate) t: Nanos,
    /// The tolerance of the bucket.
    pub(crate) tau: Nanos,
    /// The arrival time that the decision was taken for.
    pub(crate) time_of_measurement: Nanos,
    /// The theoretical arrival time that the decision led to.
    pub(crate) tat: Nanos,
}

impl StateSnapshot {
    /// The snapshot with these four values.
    pub open(crate) spec fn of(t: Nanos, tau: Nanos, time_of_measurement: Nanos, tat: Nanos)
        -> StateSnapshot {
        StateSnapshot { t, tau, time_of_measurement, tat }
    }

    /// The time cost of one cell, in nanoseconds.
    pub open(crate) spec fn cost(&self) -> nat {
        self.t@
    }

    /// The tolerance of the bucket, in nanoseconds.
    pub open(crate) spec fn tolerance(&self) -> nat {
        self.tau@
    }

    /// The arrival time that the decision was taken for.
    pub open(crate) spec fn measured_at(&self) -> nat {
        self.time_of_measurement@
    }

    /// The theoretical arrival time that the decision led to.
    pub open(crate) spec fn arrival_time(&self) -> nat {
        self.tat@
    }

    /// A snapshot holds the parameters of a bucket whose burst size fits
    /// the counter.
    #[verifier::type_invariant]
    pub open(crate) spec fn wf(&self) -> bool {
        Quota::valid_gcra_parameters(self.t@, self.tau@)
    }

    /// The snapshot of a decision taken for the arrival time
    /// `time_of_measurement`, which led to the theoretical arrival time
    /// `tat`, in a bucket with cell cost `t` and tolerance `tau`.
    pub fn new(t: Nanos, tau: Nanos, time_of_measurement: Nanos, tat: Nanos) -> (s: StateSnapshot)
        requires
            Quota::valid_gcra_parameters(t@, tau@),
        ensures
            s == StateSnapshot::of(t, tau, time_of_measurement, tat),
            s.wf(),
    {
        StateSnapshot { t, tau, time_of_measurement, tat }
    }

    /// The quota that the decision was taken under.
    pub fn quota(&self) -> (q: Quota)
        ensures
            q.wf(),
            q.interval() == self.cost(),
            q.burst() == self.tolerance() / self.cost() + 1,
    {
        proof {
            use_type_invariant(self);
        }
        Quota::from_gcra_parameters(self.t, self.tau)
    }

    /// The arrival time that the decision was taken for.
    pub fn time_of_measurement(&self) -> (at: Nanos)
        ensures
            at@ == self.measured_at(),
    {
        self.time_of_measurement
    }

    /// The theoretical arrival time that the decision led to.
    pub fn tat(&self) -> (tat: Nanos)
        ensures
            tat@ == self.arrival_time(),
    {
        self.tat
    }
}

/// What is made of a decision on a key of type `K`, taken at instants of
/// type `P`.
pub trait RateLimitingMiddleware<K, P: Reference> {
    /// What the caller gets for an admitted cell or batch.
    type PositiveOutcome;

    /// What the caller gets for a denied one.
    type NegativeOutcome;

    /// Makes the outcome of an admission from the snapshot of its decision.
    fn allow(key: &K, state: StateSnapshot) -> Self::PositiveOutcome;

    /// Makes the outcome of a denial from the snapshot of its decision and
    /// the instant that arrival times are counted from.
    fn disallow(key: &K, state: StateSnapshot, start_time: P) -> Self::NegativeOutcome;
}

/// The middleware that tells an admission by nothing, and a denial by the
/// time until which it lasts.
#[derive(Debug)]
pub struct NoOpMiddleware<P: Reference = Nanos> {
    phantom: PhantomData<P>,
}

impl<K, P: Reference> RateLimitingMiddleware<K, P> for NoOpMiddleware<P> {
    type PositiveOutcome = ();

    type NegativeOutcome = NotUntil<P>;

    fn allow(key: &K, state: StateSnapshot) -> (out: ()) {
    }

    fn disallow(key: &K, state: StateSnapshot, start_time: P) -> (out: NotUntil<P>)
        ensures
            out == NotUntil::of(state, start_time),
    {
        NotUntil::new(state, start_time)
    }
}

/// The middleware that hands the snapshot itself back on admission.
#[derive(Debug)]
pub struct StateInformationMiddleware<P: Reference = Nanos> {
    phantom: PhantomData<P>,
}

impl<K, P: Reference> RateLimitingMiddleware<K, P> for StateInformationMiddleware<P> {
    type PositiveOutcome = StateSnapshot;

    type NegativeOutcome = NotUntil<P>;

    fn allow(key: &K, state: StateSnapshot) -> (out: StateSnapshot)
        ensures
            out == state,
    {
        state
    }

    fn disallow(key: &K, state: StateSnapshot, start_time: P) -> (out: NotUntil<P>)
        ensures
            out == NotUntil::of(state, start_time),
    {
        NotUntil::new(state, start_time)
    }
}

} // verus!

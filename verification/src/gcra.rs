//! The generic cell rate algorithm.
//!
//! A bucket is one span, its theoretical arrival time: the time at which it
//! would be empty if nothing more arrived. A cell that arrives no earlier
//! than the tolerance before that time conforms; admitting it moves the
//! theoretical arrival time on by the cost of the cell. A cell that arrives
//! earlier is denied and changes nothing.
use crate::clock::Reference;
use crate::errors::InsufficientCapacity;
use crate::middleware::{RateLimitingMiddleware, StateSnapshot};
use crate::nanos::{
    duration_debug_text, duration_nanos, limit, saturating_difference, saturating_product,
    saturating_sum, Nanos,
};
use crate::quota::Quota;
use crate::state::{stored, StateStore};
use core::time::Duration;
use vstd::prelude::*;
use vstd::string::StringExecFns;

verus! {

/// A denial: the cell did not conform, and none will before some instant.
#[derive(Debug, PartialEq, Eq)]
pub struct NotUntil<P: Reference> {
    pub(crate) state: StateSnapshot,
    pub(crate) start: P,
}

impl<P: Reference> NotUntil<P> {
    /// The denial with this snapshot, counted from this instant.
    pub open(crate) spec fn of(state: StateSnapshot, start: P) -> NotUntil<P> {
        NotUntil { state, start }
    }

    /// The snapshot of the decision that denied the cell.
    pub open(crate) spec fn snapshot(&self) -> StateSnapshot {
        self.state
    }

    /// The instant that the arrival times of the decision were counted from.
    pub open(crate) spec fn start_time(&self) -> P {
        self.start
    }

    /// The span from the clock's origin to the earliest instant at which a
    /// cell could conform, once the advice was put off by `jitter`.
    pub open(crate) spec fn earliest_with_offset(&self, jitter: nat) -> nat {
        saturating_sum(
            self.start.since_origin()@,
            saturating_sum(jitter, self.state.arrival_time()),
        )
    }

    /// The span from the clock's origin to the earliest instant at which a
    /// cell could conform.
    pub open(crate) spec fn earliest(&self) -> nat {
        saturating_sum(self.start.since_origin()@, self.state.arrival_time())
    }

    /// The denial of a decision with snapshot `state`, whose arrival times
    /// were counted from `start`.
    pub fn new(state: StateSnapshot, start: P) -> (r: NotUntil<P>)
        ensures
            r == NotUntil::of(state, start),
            r.snapshot() == state,
            r.start_time() == start,
    {
        NotUntil { state, start }
    }

    /// The earliest instant at which a cell could conform, if none is
    /// admitted before.
    pub fn earliest_possible(&self) -> (instant: P)
        ensures
            instant.since_origin()@ == self.earliest(),
    {
        let tat: Nanos = self.state.tat;
        self.start.advanced_by(tat)
    }

    /// How long after `from` the earliest conforming instant lies: nothing,
    /// where `from` is that instant or a later one.
    pub fn wait_time_from(&self, from: P) -> (wait: Duration)
        ensures
            duration_nanos(wait) == saturating_difference(self.earliest(), from.since_origin()@),
            from.since_origin()@ >= self.earliest() ==> duration_nanos(wait) == 0,
    {
        let earliest = self.earliest_possible();
        earliest.duration_since(earliest.earlier_of(from)).to_duration()
    }

    /// The quota under which the cell was denied.
    pub fn quota(&self) -> (q: Quota)
        ensures
            q.wf(),
            q.interval() == self.snapshot().cost(),
            q.burst() == self.snapshot().tolerance() / self.snapshot().cost() + 1,
    {
        self.state.quota()
    }

    /// The earliest conforming instant, put off by `jitter`.
    pub fn earliest_possible_with_offset(&self, jitter: Nanos) -> (instant: P)
        ensures
            instant.since_origin()@ == self.earliest_with_offset(jitter@),
            instant.since_origin()@ >= self.earliest(),
    {
        let tat = jitter + self.state.tat;
        self.start.advanced_by(tat)
    }

    /// How long after `from` the earliest conforming instant lies, once it
    /// was put off by `jitter`.
    pub fn wait_time_with_offset(&self, from: P, jitter: Nanos) -> (wait: Duration)
        ensures
            duration_nanos(wait) == saturating_difference(
                self.earliest_with_offset(jitter@),
                from.since_origin()@,
            ),
            from.since_origin()@ >= self.earliest_with_offset(jitter@) ==> duration_nanos(wait)
                == 0,
    {
        let earliest = self.earliest_possible_with_offset(jitter);
        earliest.duration_since(earliest.earlier_of(from)).to_duration()
    }
}

impl NotUntil<Nanos> {
    /// The denial in words: until when the rate limit lasts.
    pub fn to_string(&self) -> (text: String)
        ensures
            text@ == "rate-limited until "@ + ("Nanos("@ + duration_debug_text(self.earliest())
                + ")"@),
    {
        let until = self.earliest_possible();
        let text = String::from_str("rate-limited until ");
        text.concat(until.to_string().as_str())
    }
}

/// The span from `start` to `t0`, or the empty span where `t0` is the
/// earlier of the two.
pub open(crate) spec fn elapsed<P: Reference>(start: P, t0: P) -> Nanos {
    Nanos(saturating_difference(t0.since_origin()@, start.since_origin()@) as u64)
}

/// The theoretical arrival time that a test at `t0` starts from: the
/// stored one, or `t0` itself for a key without state.
pub open spec fn tat_at(stored: Option<Nanos>, t0: Nanos) -> nat {
    match stored {
        Some(tat) => tat@,
        None => t0@,
    }
}

/// The parameters of a bucket.
#[derive(Clone, Copy, Debug, PartialEq, Eq, Structural)]
pub struct Gcra {
    /// The weight of one cell, in time.
    pub(crate) t: Nanos,
    /// The tolerance of the bucket, in time: what it holds beyond one cell.
    pub(crate) tau: Nanos,
}

impl Gcra {
    /// The time cost of one cell, in nanoseconds.
    pub open(crate) spec fn cost(&self) -> nat {
        self.t@
    }

    /// The tolerance of the bucket, in nanoseconds.
    pub open(crate) spec fn tolerance(&self) -> nat {
        self.tau@
    }

    /// A cell costs time, and the burst size fits the counter.
    #[verifier::type_invariant]
    pub open(crate) spec fn wf(&self) -> bool {
        Quota::valid_gcra_parameters(self.t@, self.tau@)
    }

    /// The bucket that enforces `quota`: a cell costs the replenishment
    /// interval, and the tolerance is the cost of all cells of a burst but
    /// the first.
    pub open(crate) spec fn of_quota(quota: Quota) -> Gcra {
        let t = if quota.interval() < 1 {
            1
        } else {
            quota.interval()
        };
        Gcra {
            t: Nanos(t as u64),
            tau: Nanos(saturating_product(t, (quota.burst() - 1) as nat) as u64),
        }
    }

    /// The quota that the bucket enforces.
    pub open(crate) spec fn to_quota(&self) -> Quota {
        Quota::of_gcra_parameters(self.t, self.tau)
    }

    /// The weight of a batch of `n` cells beyond that of its first cell.
    pub open spec fn additional_weight(&self, n: nat) -> nat {
        saturating_product(self.cost(), (n - 1) as nat)
    }

    /// Whether a batch of `n` cells can be admitted in some state.
    pub open spec fn fits(&self, n: nat) -> bool {
        self.additional_weight(n) <= self.tolerance()
    }

    /// The number of cells that the tolerance pays for, and one.
    pub open spec fn max_batch(&self) -> nat {
        self.tolerance() / self.cost() + 1
    }

    /// The earliest arrival time at which a batch of additional weight
    /// `weight` conforms, in a bucket with theoretical arrival time `tat`.
    pub open spec fn earliest_time(&self, tat: nat, weight: nat) -> nat {
        saturating_difference(saturating_sum(tat, weight), self.tolerance())
    }

    /// Whether a batch of additional weight `weight` that arrives at `t0`
    /// conforms, given the stored state of its key.
    pub open spec fn conforms(&self, stored: Option<Nanos>, t0: Nanos, weight: nat) -> bool {
        t0@ >= self.earliest_time(tat_at(stored, t0), weight)
    }

    /// The theoretical arrival time after a batch of additional weight
    /// `weight` was admitted at `t0`.
    pub open spec fn next_tat(&self, stored: Option<Nanos>, t0: Nanos, weight: nat) -> nat {
        let tat = tat_at(stored, t0);
        let from = if tat < t0@ {
            t0@
        } else {
            tat
        };
        saturating_sum(saturating_sum(from, self.cost()), weight)
    }

    /// The decision on a batch of additional weight `weight` that arrives
    /// at `t0`: admitted, with the snapshot and the new state of the key, or
    /// denied, with the snapshot.
    pub open(crate) spec fn outcome(&self, stored: Option<Nanos>, t0: Nanos, weight: nat)
        -> Result<(StateSnapshot, Nanos), StateSnapshot> {
        if self.conforms(stored, t0, weight) {
            let next = Nanos(self.next_tat(stored, t0, weight) as u64);
            Ok((StateSnapshot::of(self.t, self.tau, t0, next), next))
        } else {
            let earliest = Nanos(self.earliest_time(tat_at(stored, t0), weight) as u64);
            Err(StateSnapshot::of(self.t, self.tau, earliest, earliest))
        }
    }

    /// The state of a key after a test with this outcome.
    pub open spec fn state_after(
        stored: Option<Nanos>,
        outcome: Result<(StateSnapshot, Nanos), StateSnapshot>,
    ) -> Option<Nanos> {
        match outcome {
            Ok((_, next)) => Some(next),
            Err(_) => stored,
        }
    }

    /// The bucket that enforces `quota`.
    pub fn new(quota: Quota) -> (g: Gcra)
        ensures
            g == Gcra::of_quota(quota),
            g.wf(),
            g.cost() == quota.interval(),
            g.tolerance() == saturating_product(quota.interval(), (quota.burst() - 1) as nat),
    {
        proof {
            use_type_invariant(&quota);
        }
        let t: Nanos = quota.replenish_1_per.max(Nanos::new(1));
        let cells: u32 = quota.max_burst - 1;
        let tau: Nanos = t * (cells as u64);
        proof {
            lemma_tolerance_pays_for_burst(t@, cells as nat, tau@);
        }
        Gcra { t, tau }
    }

    /// The time cost of one cell.
    pub fn t(&self) -> (t: Nanos)
        ensures
            t@ == self.cost(),
            t@ >= 1,
    {
        proof {
            use_type_invariant(self);
        }
        self.t
    }

    /// The tolerance of the bucket.
    pub fn tau(&self) -> (tau: Nanos)
        ensures
            tau@ == self.tolerance(),
    {
        self.tau
    }

    /// The weight of a batch of `n` cells beyond that of its first cell, or
    /// the refusal of a batch that the bucket cannot hold in any state, with
    /// the largest batch that it can.
    pub fn batch_weight(&self, n: u32) -> (r: Result<Nanos, InsufficientCapacity>)
        requires
            n >= 1,
        ensures
            self.fits(n as nat) ==> (r matches Ok(weight) && weight@ == self.additional_weight(
                n as nat,
            )),
            !self.fits(n as nat) ==> (r matches Err(refused) && refused.0 == self.max_batch()),
    {
        proof {
            use_type_invariant(self);
        }
        let additional_weight: Nanos = self.t * ((n - 1) as u64);
        // Both the additional weight and the tolerance are what comes on top
        // of the first cell.
        if additional_weight > self.tau {
            let paid_for: u64 = self.tau.as_u64() / self.t.as_u64();
            Err(InsufficientCapacity(1 + (paid_for as u32)))
        } else {
            Ok(additional_weight)
        }
    }

    /// Decides on a batch of additional weight `weight` that arrives at
    /// `t0`, for a key whose stored state is `stored`.
    ///
    /// The batch conforms where `t0` is no earlier than the tolerance before
    /// the theoretical arrival time, taken with the additional weight. Then
    /// the result holds the snapshot of the admission and the new
    /// theoretical arrival time. Else it holds the snapshot of the denial,
    /// which carries the earliest conforming arrival time.
    pub fn decide(&self, stored: Option<Nanos>, t0: Nanos, weight: Nanos) -> (r: Result<
        (StateSnapshot, Nanos),
        StateSnapshot,
    >)
        ensures
            r == self.outcome(stored, t0, weight@),
            r is Ok <==> self.conforms(stored, t0, weight@),
            r matches Ok((snapshot, next)) ==> next@ == self.next_tat(stored, t0, weight@)
                && snapshot.measured_at() == t0@ && snapshot.arrival_time() == next@,
            r matches Err(snapshot) ==> snapshot.measured_at() == self.earliest_time(
                tat_at(stored, t0),
                weight@,
            ) && snapshot.arrival_time() == snapshot.measured_at(),
            match r {
                Ok((snapshot, _)) => snapshot,
                Err(snapshot) => snapshot,
            }.cost() == self.cost(),
            match r {
                Ok((snapshot, _)) => snapshot,
                Err(snapshot) => snapshot,
            }.tolerance() == self.tolerance(),
    {
        proof {
            use_type_invariant(self);
        }
        let tat: Nanos = match stored {
            Some(tat) => tat,
            None => t0,
        };
        let earliest_time: Nanos = (tat + weight).saturating_sub(self.tau);
        if t0 < earliest_time {
            Err(StateSnapshot::new(self.t, self.tau, earliest_time, earliest_time))
        } else {
            let next: Nanos = tat.max(t0) + self.t + weight;
            Ok((StateSnapshot::new(self.t, self.tau, t0, next), next))
        }
    }
}

impl Gcra {
    /// Tests a single cell that arrives at `t0` against the state of `key`,
    /// and updates that state where the cell is admitted.
    ///
    /// Arrival times are counted from `start`. An admission is handed to
    /// the middleware's `allow`, and the new theoretical arrival time
    /// becomes the state of `key`; a denial is handed to its `disallow`, and
    /// the store is left as it was.
    pub fn test_and_update<
        K,
        P: Reference,
        S: StateStore<Key = K>,
        MW: RateLimitingMiddleware<K, P>,
    >(&self, start: P, key: &K, state: &mut S, t0: P) -> (r: Result<
        MW::PositiveOutcome,
        MW::NegativeOutcome,
    >)
        ensures
            match self.outcome(stored(old(state).cells(), *key), elapsed(start, t0), 0) {
                Ok((snapshot, next)) => r matches Ok(out) && call_ensures(
                    MW::allow,
                    (key, snapshot),
                    out,
                ) && final(state).cells() == old(state).cells().insert(*key, next),
                Err(snapshot) => r matches Err(out) && call_ensures(
                    MW::disallow,
                    (key, snapshot, start),
                    out,
                ) && final(state).cells() == old(state).cells(),
            },
            stored(final(state).cells(), *key) == Gcra::state_after(
                stored(old(state).cells(), *key),
                self.outcome(stored(old(state).cells(), *key), elapsed(start, t0), 0),
            ),
    {
        let t0: Nanos = t0.duration_since(start);
        let weight = Nanos::new(0);
        state.measure_and_replace(
            key,
            |tat: Option<Nanos>| -> (out: Result<(MW::PositiveOutcome, Nanos), MW::NegativeOutcome>)
                ensures
                    match self.outcome(tat, t0, weight@) {
                        Ok((snapshot, next)) => out matches Ok((made, written)) && written == next
                            && call_ensures(MW::allow, (key, snapshot), made),
                        Err(snapshot) => out matches Err(made) && call_ensures(
                            MW::disallow,
                            (key, snapshot, start),
                            made,
                        ),
                    },
                {
                    match self.decide(tat, t0, weight) {
                        Ok((snapshot, next)) => Ok((MW::allow(key, snapshot), next)),
                        Err(snapshot) => Err(MW::disallow(key, snapshot, start)),
                    }
                }
        )
    }

    /// Tests whether all of `n` cells that arrive at `t0` can be admitted
    /// at once, and updates the state of `key` where they are.
    ///
    /// A batch that weighs more than the bucket holds is refused before the
    /// store is touched, with the largest batch that the bucket can hold.
    /// Any other batch is decided on as one cell of the batch's weight: all
    /// of it is admitted, or none.
    pub fn test_n_all_and_update<
        K,
        P: Reference,
        S: StateStore<Key = K>,
        MW: RateLimitingMiddleware<K, P>,
    >(&self, start: P, key: &K, n: u32, state: &mut S, t0: P) -> (r: Result<
        Result<MW::PositiveOutcome, MW::NegativeOutcome>,
        InsufficientCapacity,
    >)
        requires
            n >= 1,
        ensures
            !self.fits(n as nat) ==> (r matches Err(refused) && refused.0 == self.max_batch()
                && final(state).cells() == old(state).cells()),
            self.fits(n as nat) ==> (r matches Ok(decided) && match self.outcome(
                stored(old(state).cells(), *key),
                elapsed(start, t0),
                self.additional_weight(n as nat),
            ) {
                Ok((snapshot, next)) => decided matches Ok(out) && call_ensures(
                    MW::allow,
                    (key, snapshot),
                    out,
                ) && final(state).cells() == old(state).cells().insert(*key, next),
                Err(snapshot) => decided matches Err(out) && call_ensures(
                    MW::disallow,
                    (key, snapshot, start),
                    out,
                ) && final(state).cells() == old(state).cells(),
            }),
            self.fits(n as nat) ==> stored(final(state).cells(), *key) == Gcra::state_after(
                stored(old(state).cells(), *key),
                self.outcome(
                    stored(old(state).cells(), *key),
                    elapsed(start, t0),
                    self.additional_weight(n as nat),
                ),
            ),
    {
        let t0: Nanos = t0.duration_since(start);
        let additional_weight: Nanos = match self.batch_weight(n) {
            Ok(weight) => weight,
            Err(refused) => {
                return Err(refused);
            },
        };
        let decided = state.measure_and_replace(
            key,
            |tat: Option<Nanos>| -> (out: Result<(MW::PositiveOutcome, Nanos), MW::NegativeOutcome>)
                ensures
                    match self.outcome(tat, t0, additional_weight@) {
                        Ok((snapshot, next)) => out matches Ok((made, written)) && written == next
                            && call_ensures(MW::allow, (key, snapshot), made),
                        Err(snapshot) => out matches Err(made) && call_ensures(
                            MW::disallow,
                            (key, snapshot, start),
                            made,
                        ),
                    },
                {
                    match self.decide(tat, t0, additional_weight) {
                        Ok((snapshot, next)) => Ok((MW::allow(key, snapshot), next)),
                        Err(snapshot) => Err(MW::disallow(key, snapshot, start)),
                    }
                }
        );
        Ok(decided)
    }
}

/// A tolerance of at most `cells` times the cost pays for at most `cells`
/// cells.
proof fn lemma_tolerance_pays_for_burst(t: nat, cells: nat, tau: nat)
    requires
        t >= 1,
        tau == saturating_product(t, cells),
    ensures
        tau / t <= cells,
{
    assert(tau <= t * cells);
    assert(tau / t <= cells) by (nonlinear_arith)
        requires
            t >= 1,
            tau <= t * cells,
    ;
}

/// A quota is read back unchanged from the bucket that enforces it, where
/// the tolerance of that bucket fits a span: where the cost of all cells of
/// a burst but the first is no more than the largest span.
pub proof fn lemma_quota_round_trips(quota: Quota)
    requires
        quota.wf(),
        quota.interval() * (quota.burst() - 1) <= limit(),
    ensures
        Gcra::of_quota(quota).wf(),
        Gcra::of_quota(quota).to_quota() == quota,
        Gcra::of_quota(quota).max_batch() == quota.burst(),
{
    let t = quota.interval();
    let cells = (quota.burst() - 1) as nat;
    let g = Gcra::of_quota(quota);
    assert(g.tolerance() == t * cells);
    assert((t * cells) / t == cells) by (nonlinear_arith)
        requires
            t >= 1,
    ;
}

/// Where the tolerance is short of the largest span, the batches that the
/// bucket can hold are those of at most `max_batch()` cells.
pub proof fn lemma_fits_up_to_max_batch(g: Gcra, n: nat)
    requires
        g.wf(),
        n >= 1,
        g.tolerance() < limit(),
    ensures
        g.fits(n) <==> n <= g.max_batch(),
{
    let t = g.cost();
    let tau = g.tolerance();
    let cells = (n - 1) as nat;
    assert(t * cells <= tau <==> cells <= tau / t) by (nonlinear_arith)
        requires
            t >= 1,
    ;
}

/// A batch of one cell is a single cell: it fits every bucket, and it is
/// decided on as a cell without additional weight.
pub proof fn lemma_batch_of_one_is_single_cell(g: Gcra, stored: Option<Nanos>, t0: Nanos)
    ensures
        g.fits(1),
        g.additional_weight(1) == 0,
        g.outcome(stored, t0, g.additional_weight(1)) == g.outcome(stored, t0, 0),
{
    assert(g.cost() * 0 == 0) by (nonlinear_arith);
}

/// A denied batch consumes nothing: the state of its key is as before, so
/// every later test is decided as if the denied one had never been made.
pub proof fn lemma_denial_consumes_nothing(
    g: Gcra,
    stored: Option<Nanos>,
    t0: Nanos,
    weight: nat,
    later: Nanos,
    later_weight: nat,
)
    requires
        g.outcome(stored, t0, weight) is Err,
    ensures
        Gcra::state_after(stored, g.outcome(stored, t0, weight)) == stored,
        g.outcome(Gcra::state_after(stored, g.outcome(stored, t0, weight)), later, later_weight)
            == g.outcome(stored, later, later_weight),
{
}

/// An admitted batch is accounted for in full: the theoretical arrival time
/// moves on from the later of its old value and the arrival time by the
/// cost of one cell and the additional weight of the batch, as far as a
/// span reaches.
pub proof fn lemma_admission_consumes_whole_batch(
    g: Gcra,
    stored: Option<Nanos>,
    t0: Nanos,
    weight: nat,
)
    requires
        g.outcome(stored, t0, weight) is Ok,
    ensures
        Gcra::state_after(stored, g.outcome(stored, t0, weight)) matches Some(next) && next@
            == saturating_sum(
            saturating_sum(
                if tat_at(stored, t0) < t0@ {
                    t0@
                } else {
                    tat_at(stored, t0)
                },
                g.cost(),
            ),
            weight,
        ),
{
}

} // verus!

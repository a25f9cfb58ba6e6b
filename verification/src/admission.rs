//! What holds of runs of admission tests on one key.
//!
//! A store serves the tests of one key one after another, whoever makes
//! them. So whatever holds of every sequence of tests holds of every way in
//! which the tests of several callers can fall.
use crate::gcra::{tat_at, Gcra};
use crate::nanos::{limit, Nanos};
use crate::quota::Quota;
use vstd::prelude::*;

verus! {

/// The state of a key after single cells arrived at `arrivals` and were
/// tested in that order, starting from the state `stored`.
pub open spec fn state_after_run(g: Gcra, stored: Option<Nanos>, arrivals: Seq<Nanos>) -> Option<
    Nanos,
>
    decreases arrivals.len(),
{
    if arrivals.len() == 0 {
        stored
    } else {
        state_after_run(
            g,
            Gcra::state_after(stored, g.outcome(stored, arrivals[0], 0)),
            arrivals.drop_first(),
        )
    }
}

/// How many single cells are admitted, of those that arrive no earlier than
/// `from` and no later than `until`, when cells arrive at `arrivals` and are
/// tested in that order, starting from the state `stored`.
pub open spec fn admitted_within(
    g: Gcra,
    stored: Option<Nanos>,
    arrivals: Seq<Nanos>,
    from: nat,
    until: nat,
) -> nat
    decreases arrivals.len(),
{
    if arrivals.len() == 0 {
        0
    } else {
        let outcome = g.outcome(stored, arrivals[0], 0);
        let counted: nat = if outcome is Ok && from <= arrivals[0]@ <= until {
            1
        } else {
            0
        };
        counted + admitted_within(
            g,
            Gcra::state_after(stored, outcome),
            arrivals.drop_first(),
            from,
            until,
        )
    }
}

/// The bound on a window, for a run that starts after `k` cells of the
/// window were admitted already.
proof fn lemma_window_bound_from(
    g: Gcra,
    stored: Option<Nanos>,
    arrivals: Seq<Nanos>,
    from: nat,
    span: nat,
    k: nat,
)
    requires
        g.wf(),
        from + span + g.tolerance() + g.cost() <= limit(),
        k * g.cost() <= span + g.tolerance() + g.cost(),
        k >= 1 ==> (stored matches Some(tat) && tat@ >= from + k * g.cost()),
    ensures
        (k + admitted_within(g, stored, arrivals, from, from + span)) * g.cost() <= span
            + g.tolerance() + g.cost(),
    decreases arrivals.len(),
{
    let t = g.cost();
    if arrivals.len() != 0 {
        let first = arrivals[0];
        let outcome = g.outcome(stored, first, 0);
        let after = Gcra::state_after(stored, outcome);
        let rest = arrivals.drop_first();
        if outcome is Ok {
            if from <= first@ <= from + span {
                assert((k + 1) * t == k * t + t) by (nonlinear_arith);
                lemma_window_bound_from(g, after, rest, from, span, k + 1);
            } else {
                lemma_window_bound_from(g, after, rest, from, span, k);
            }
        } else {
            lemma_window_bound_from(g, stored, rest, from, span, k);
        }
    }
}

/// However the single-cell tests of a key fall, the cells admitted among
/// those that arrive within a window of length `span` cost no more time
/// than the window, the tolerance and one cell together. It holds from any
/// state, as long as the end of the window lies at least the tolerance and
/// the cost of one cell before the largest span.
pub proof fn lemma_window_bound(
    g: Gcra,
    stored: Option<Nanos>,
    arrivals: Seq<Nanos>,
    from: nat,
    span: nat,
)
    requires
        g.wf(),
        from + span + g.tolerance() + g.cost() <= limit(),
    ensures
        admitted_within(g, stored, arrivals, from, from + span) * g.cost() <= span + g.tolerance()
            + g.cost(),
{
    assert(0 * g.cost() == 0) by (nonlinear_arith);
    lemma_window_bound_from(g, stored, arrivals, from, span, 0);
}

/// Under a quota, however the single-cell tests of a key fall, no more
/// cells are admitted among those that arrive within a window of length
/// `span` than the burst size and one more for each replenishment interval
/// that the window holds; in a window of no length, no more than the burst
/// size. It holds from any state, where the tolerance of the quota's bucket
/// fits a span and the window ends early enough for a full burst to be
/// accounted for after it.
pub proof fn lemma_rate_is_bounded(
    quota: Quota,
    stored: Option<Nanos>,
    arrivals: Seq<Nanos>,
    from: nat,
    span: nat,
)
    requires
        quota.wf(),
        from + span + quota.interval() * quota.burst() <= limit(),
    ensures
        admitted_within(Gcra::of_quota(quota), stored, arrivals, from, from + span)
            <= quota.burst() + span / quota.interval(),
        span == 0 ==> admitted_within(Gcra::of_quota(quota), stored, arrivals, from, from)
            <= quota.burst(),
{
    let g = Gcra::of_quota(quota);
    let t = quota.interval();
    let burst = quota.burst();
    let cells = (burst - 1) as nat;
    assert(t * burst == t * cells + t) by (nonlinear_arith)
        requires
            burst == cells + 1,
    ;
    assert(g.tolerance() == t * cells);
    assert((t * cells) / t == cells) by (nonlinear_arith)
        requires
            t >= 1,
    ;
    lemma_window_bound(g, stored, arrivals, from, span);
    let n = admitted_within(g, stored, arrivals, from, from + span);
    assert(n <= burst + span / t) by (nonlinear_arith)
        requires
            t >= 1,
            n * t <= span + t * burst,
    ;
    if span == 0 {
        assert(0nat / t == 0) by (nonlinear_arith)
            requires
                t >= 1,
        ;
    }
}

/// The run in which `cells` single cells arrive at the same instant.
pub open spec fn at_once(t0: Nanos, cells: nat) -> Seq<Nanos> {
    Seq::new(cells, |i: int| t0)
}

/// A burst, for a key of which `had` cells of the burst were admitted
/// already.
proof fn lemma_burst_from(g: Gcra, stored: Option<Nanos>, t0: Nanos, had: nat, cells: nat)
    requires
        g.wf(),
        had + cells <= g.max_batch(),
        t0@ + (had + cells) * g.cost() <= limit(),
        had == 0 ==> stored is None,
        had >= 1 ==> (stored matches Some(tat) && tat@ == t0@ + had * g.cost()),
    ensures
        admitted_within(g, stored, at_once(t0, cells), t0@, t0@) == cells,
        had + cells >= 1 ==> (state_after_run(g, stored, at_once(t0, cells)) matches Some(tat)
            && tat@ == t0@ + (had + cells) * g.cost()),
        had + cells == 0 ==> state_after_run(g, stored, at_once(t0, cells)) is None,
    decreases cells,
{
    let t = g.cost();
    let tau = g.tolerance();
    if cells != 0 {
        let run = at_once(t0, cells);
        let rest = at_once(t0, (cells - 1) as nat);
        assert(run.drop_first() =~= rest);
        assert(run[0] == t0);
        assert(had * t <= tau) by (nonlinear_arith)
            requires
                t >= 1,
                had <= tau / t,
        ;
        assert((had + 1) * t == had * t + t) by (nonlinear_arith);
        assert((had + 1) * t <= (had + cells) * t) by (nonlinear_arith)
            requires
                cells >= 1,
        ;
        let outcome = g.outcome(stored, t0, 0);
        assert(outcome is Ok);
        let after = Gcra::state_after(stored, outcome);
        assert(after matches Some(tat) && tat@ == t0@ + (had + 1) * t);
        lemma_burst_from(g, after, t0, had + 1, (cells - 1) as nat);
    }
}

/// A key without state admits a burst: of single cells that arrive at one
/// instant, as many as the bucket holds are admitted, and each moves the
/// theoretical arrival time on by the cost of a cell. It holds where that
/// time fits a span.
pub proof fn lemma_burst_is_admitted(g: Gcra, t0: Nanos, cells: nat)
    requires
        g.wf(),
        1 <= cells <= g.max_batch(),
        t0@ + cells * g.cost() <= limit(),
    ensures
        admitted_within(g, None, at_once(t0, cells), t0@, t0@) == cells,
        state_after_run(g, None, at_once(t0, cells)) matches Some(tat) && tat@ == t0@ + cells
            * g.cost(),
{
    lemma_burst_from(g, None, t0, 0, cells);
}

/// After a full burst the bucket is empty: one more cell at the same
/// instant is denied, and the earliest arrival time that would conform lies
/// as far after that instant as the burst outweighs the tolerance.
pub proof fn lemma_full_bucket_denies(g: Gcra, t0: Nanos)
    requires
        g.wf(),
        t0@ + g.max_batch() * g.cost() <= limit(),
    ensures
        ({
            let full = state_after_run(g, None, at_once(t0, g.max_batch()));
            &&& !g.conforms(full, t0, 0)
            &&& g.earliest_time(tat_at(full, t0), 0) == t0@ + g.max_batch() * g.cost()
                - g.tolerance()
            &&& g.tolerance() % g.cost() == 0 ==> g.earliest_time(tat_at(full, t0), 0) == t0@
                + g.cost()
        }),
{
    let t = g.cost();
    let tau = g.tolerance();
    let cells = g.max_batch();
    lemma_burst_is_admitted(g, t0, cells);
    assert(cells * t > tau && (tau % t == 0 ==> cells * t == tau + t)) by (nonlinear_arith)
        requires
            t >= 1,
            cells == tau / t + 1,
    ;
}

/// Whether each arrival of the run comes at least `gap` after the one
/// before it.
pub open spec fn spaced_by(arrivals: Seq<Nanos>, gap: nat) -> bool {
    forall|i: int| 0 <= i < arrivals.len() - 1 ==> arrivals[i]@ + gap <= #[trigger] arrivals[i + 1]@
}

/// Cells that keep to the rate are all admitted: where the bucket is empty
/// by the first arrival, and each cell arrives no sooner after the one
/// before it than a cell costs, every one of them conforms.
pub proof fn lemma_steady_rate_is_admitted(g: Gcra, stored: Option<Nanos>, arrivals: Seq<Nanos>)
    requires
        g.wf(),
        spaced_by(arrivals, g.cost()),
        arrivals.len() > 0 ==> tat_at(stored, arrivals[0]) <= arrivals[0]@,
    ensures
        admitted_within(g, stored, arrivals, 0, limit()) == arrivals.len(),
    decreases arrivals.len(),
{
    if arrivals.len() != 0 {
        let first = arrivals[0];
        let outcome = g.outcome(stored, first, 0);
        let after = Gcra::state_after(stored, outcome);
        let rest = arrivals.drop_first();
        assert(outcome is Ok);
        assert forall|i: int| 0 <= i < rest.len() - 1 implies rest[i]@ + g.cost()
            <= #[trigger] rest[i + 1]@ by {
            assert(rest[i] == arrivals[i + 1]);
            assert(rest[i + 1] == arrivals[i + 1 + 1]);
        }
        if rest.len() > 0 {
            assert(rest[0] == arrivals[0int + 1]);
        }
        lemma_steady_rate_is_admitted(g, after, rest);
    }
}

} // verus!

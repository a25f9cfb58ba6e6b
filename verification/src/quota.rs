//! The configuration of a rate limiter: how fast capacity comes back, and how
//! much of it can be held.
use crate::nanos::{duration_nanos, saturating_sum, Nanos};
use core::time::Duration;
use vstd::prelude::*;

verus! {

/// Why a quota could not be built.
#[derive(Clone, Copy, Debug, PartialEq, Eq, Structural)]
pub enum InvalidQuota {
    /// The burst size was zero.
    ZeroBurst,
    /// The replenishment interval was empty.
    ZeroInterval,
}

/// Nanoseconds in one second.
pub const NANOS_PER_SECOND: u64 = 1_000_000_000;

/// Nanoseconds in one minute.
pub const NANOS_PER_MINUTE: u64 = 60_000_000_000;

/// Nanoseconds in one hour.
pub const NANOS_PER_HOUR: u64 = 3_600_000_000_000;

/// A rate-limiting quota: one cell of capacity comes back every
/// `interval()` nanoseconds, and at most `burst()` cells are held.
#[derive(Clone, Copy, Debug, PartialEq, Eq, Structural)]
pub struct Quota {
    pub(crate) max_burst: u32,
    pub(crate) replenish_1_per: Nanos,
}

/// The interval at which `max_burst` cells per `period` nanoseconds come
/// back, one at a time; never shorter than a nanosecond.
pub open spec fn interval_of_rate(period: nat, max_burst: nat) -> nat {
    if period / max_burst == 0 {
        1
    } else {
        period / max_burst
    }
}

impl Quota {
    /// The largest number of cells that can be admitted at once.
    pub open(crate) spec fn burst(&self) -> nat {
        self.max_burst as nat
    }

    /// The time after which one cell of capacity has come back, in nanoseconds.
    pub open(crate) spec fn interval(&self) -> nat {
        self.replenish_1_per@
    }

    /// A quota holds at least one cell and replenishes in positive time.
    #[verifier::type_invariant]
    pub open(crate) spec fn wf(&self) -> bool {
        &&& self.max_burst >= 1
        &&& self.replenish_1_per@ >= 1
    }

    /// The quota that replenishes one cell every `replenish_1_per` and holds
    /// up to `max_burst` cells. A duration beyond the largest span counts as
    /// the largest span.
    pub fn new(replenish_1_per: Duration, max_burst: u32) -> (r: Result<Quota, InvalidQuota>)
        ensures
            max_burst == 0 ==> r == Err::<Quota, InvalidQuota>(InvalidQuota::ZeroBurst),
            max_burst != 0 && duration_nanos(replenish_1_per) == 0 ==> r == Err::<
                Quota,
                InvalidQuota,
            >(InvalidQuota::ZeroInterval),
            max_burst != 0 && duration_nanos(replenish_1_per) != 0 ==> r is Ok && r->Ok_0.wf()
                && r->Ok_0.burst() == max_burst && r->Ok_0.interval() == saturating_sum(
                duration_nanos(replenish_1_per),
                0,
            ),
    {
        if max_burst == 0 {
            return Err(InvalidQuota::ZeroBurst);
        }
        let interval = Nanos::from(replenish_1_per);
        if interval.as_u64() == 0 {
            return Err(InvalidQuota::ZeroInterval);
        }
        Ok(Quota { max_burst, replenish_1_per: interval })
    }

    fn per_period(period: u64, max_burst: u32) -> (r: Result<Quota, InvalidQuota>)
        ensures
            max_burst == 0 <==> r == Err::<Quota, InvalidQuota>(InvalidQuota::ZeroBurst),
            max_burst != 0 ==> r is Ok && r->Ok_0.wf() && r->Ok_0.burst() == max_burst
                && r->Ok_0.interval() == interval_of_rate(period as nat, max_burst as nat),
    {
        if max_burst == 0 {
            return Err(InvalidQuota::ZeroBurst);
        }
        let share: u64 = period / (max_burst as u64);
        let interval: u64 = if share == 0 {
            1
        } else {
            share
        };
        Ok(Quota { max_burst, replenish_1_per: Nanos::new(interval) })
    }

    /// The quota of `max_burst` cells per second, all of which may come at once.
    pub fn per_second(max_burst: u32) -> (r: Result<Quota, InvalidQuota>)
        ensures
            max_burst == 0 <==> r == Err::<Quota, InvalidQuota>(InvalidQuota::ZeroBurst),
            max_burst != 0 ==> r is Ok && r->Ok_0.wf() && r->Ok_0.burst() == max_burst
                && r->Ok_0.interval() == interval_of_rate(
                NANOS_PER_SECOND as nat,
                max_burst as nat,
            ),
    {
        Self::per_period(NANOS_PER_SECOND, max_burst)
    }

    /// The quota of `max_burst` cells per minute, all of which may come at once.
    pub fn per_minute(max_burst: u32) -> (r: Result<Quota, InvalidQuota>)
        ensures
            max_burst == 0 <==> r == Err::<Quota, InvalidQuota>(InvalidQuota::ZeroBurst),
            max_burst != 0 ==> r is Ok && r->Ok_0.wf() && r->Ok_0.burst() == max_burst
                && r->Ok_0.interval() == interval_of_rate(
                NANOS_PER_MINUTE as nat,
                max_burst as nat,
            ),
    {
        Self::per_period(NANOS_PER_MINUTE, max_burst)
    }

    /// The quota of `max_burst` cells per hour, all of which may come at once.
    pub fn per_hour(max_burst: u32) -> (r: Result<Quota, InvalidQuota>)
        ensures
            max_burst == 0 <==> r == Err::<Quota, InvalidQuota>(InvalidQuota::ZeroBurst),
            max_burst != 0 ==> r is Ok && r->Ok_0.wf() && r->Ok_0.burst() == max_burst
                && r->Ok_0.interval() == interval_of_rate(NANOS_PER_HOUR as nat, max_burst as nat),
    {
        Self::per_period(NANOS_PER_HOUR, max_burst)
    }

    /// The same rate with another burst size.
    pub fn allow_burst(self, max_burst: u32) -> (r: Result<Quota, InvalidQuota>)
        ensures
            max_burst == 0 <==> r == Err::<Quota, InvalidQuota>(InvalidQuota::ZeroBurst),
            max_burst != 0 ==> r is Ok && r->Ok_0.wf() && r->Ok_0.burst() == max_burst
                && r->Ok_0.interval() == self.interval(),
    {
        proof {
            use_type_invariant(&self);
        }
        if max_burst == 0 {
            return Err(InvalidQuota::ZeroBurst);
        }
        Ok(Quota { max_burst, replenish_1_per: self.replenish_1_per })
    }

    /// The largest number of cells that can be admitted at once.
    pub fn burst_size(&self) -> (n: u32)
        ensures
            n == self.burst(),
            n >= 1,
    {
        proof {
            use_type_invariant(self);
        }
        self.max_burst
    }

    /// The time after which one cell of capacity has come back.
    pub fn replenishment_interval(&self) -> (d: Duration)
        ensures
            duration_nanos(d) == self.interval(),
            duration_nanos(d) >= 1,
    {
        proof {
            use_type_invariant(self);
        }
        self.replenish_1_per.to_duration()
    }

    /// Whether `t` and `tau` are the cost of one cell and the tolerance of
    /// a bucket whose burst size fits the counter.
    pub open spec fn valid_gcra_parameters(t: nat, tau: nat) -> bool {
        &&& t >= 1
        &&& tau / t < u32::MAX
    }

    /// The quota with replenishment interval `t` and burst size `tau / t + 1`.
    pub open(crate) spec fn of_gcra_parameters(t: Nanos, tau: Nanos) -> Quota {
        Quota { max_burst: (tau@ / t@ + 1) as u32, replenish_1_per: t }
    }

    /// The quota that a bucket with cell cost `t` and tolerance `tau` enforces:
    /// one cell every `t`, and `tau / t + 1` cells at once.
    pub fn from_gcra_parameters(t: Nanos, tau: Nanos) -> (q: Quota)
        requires
            Self::valid_gcra_parameters(t@, tau@),
        ensures
            q == Quota::of_gcra_parameters(t, tau),
            q.wf(),
            q.interval() == t@,
            q.burst() == tau@ / t@ + 1,
    {
        let cells: u64 = tau.as_u64() / t.as_u64();
        Quota { max_burst: 1 + (cells as u32), replenish_1_per: t }
    }
}

} // verus!

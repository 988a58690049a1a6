//! The rate that a limiter lets through.

use vstd::prelude::*;
use crate::nanos::Nanos;

verus! {

/// The nanoseconds in one second.
pub const NANOS_PER_SECOND: u64 = 1_000_000_000;

/// Whether a limiter can be built for cells that each take `interval`
/// nanoseconds to replenish, in bursts of up to `burst` cells: the interval
/// is not zero, a burst holds at least one cell, and the time that a whole
/// burst takes to replenish is a time value.
pub open spec fn valid_quota(interval: nat, burst: nat) -> bool {
    &&& interval > 0
    &&& burst >= 1
    &&& interval * burst <= u64::MAX
}

/// A rate limit: how long one cell takes to replenish, and how many cells
/// may pass in one burst.
///
/// Every quota is valid in the sense of [`valid_quota`].
#[derive(Clone, Copy, Debug, PartialEq, Eq)]
pub struct Quota {
    max_burst: u32,
    replenish_1_per: Nanos,
}

impl Quota {
    /// The number of cells that may pass in one burst.
    pub closed spec fn spec_burst_size(&self) -> u32 {
        self.max_burst
    }

    /// The time that one cell takes to replenish.
    pub closed spec fn spec_replenish_interval(&self) -> Nanos {
        self.replenish_1_per
    }

    /// What holds of every quota.
    #[verifier::type_invariant]
    pub open spec fn wf(&self) -> bool {
        valid_quota(self.spec_replenish_interval()@, self.spec_burst_size() as nat)
    }

    /// The quota that replenishes one cell per `replenish_1_per` and lets
    /// bursts of up to `max_burst` cells pass, if that is a valid quota.
    pub fn new(replenish_1_per: Nanos, max_burst: u32) -> (r: Option<Quota>)
        ensures
            r is Some <==> valid_quota(replenish_1_per@, max_burst as nat),
            r matches Some(quota) ==> {
                &&& quota.wf()
                &&& quota.spec_replenish_interval() == replenish_1_per
                &&& quota.spec_burst_size() == max_burst
            },
    {
        let interval = replenish_1_per.as_u64();
        if interval == 0 || max_burst == 0 {
            return None;
        }
        match interval.checked_mul(max_burst as u64) {
            Some(_) => Some(Quota { max_burst, replenish_1_per }),
            None => None,
        }
    }

    /// The quota of `max_burst` cells per second, in bursts of up to
    /// `max_burst` cells, where there is one: the burst must hold at least
    /// one cell, and no more cells than a second has nanoseconds.
    pub fn per_second(max_burst: u32) -> (r: Option<Quota>)
        ensures
            r is Some <==> 1 <= max_burst <= NANOS_PER_SECOND,
            r matches Some(quota) ==> {
                &&& quota.wf()
                &&& quota.spec_replenish_interval()@ == NANOS_PER_SECOND as nat / max_burst as nat
                &&& quota.spec_burst_size() == max_burst
            },
    {
        if max_burst == 0 || max_burst as u64 > NANOS_PER_SECOND {
            return None;
        }
        let interval = NANOS_PER_SECOND / (max_burst as u64);
        assert(interval >= 1 && interval * max_burst <= NANOS_PER_SECOND) by (nonlinear_arith)
            requires
                1 <= max_burst <= NANOS_PER_SECOND,
                interval == NANOS_PER_SECOND / (max_burst as u64),
        ;
        Some(Quota { max_burst, replenish_1_per: Nanos::new(interval) })
    }

    /// The time that one cell takes to replenish.
    #[verifier::when_used_as_spec(spec_replenish_interval)]
    pub fn replenish_interval(&self) -> (r: Nanos)
        ensures
            r == self.spec_replenish_interval(),
    {
        self.replenish_1_per
    }

    /// The number of cells that may pass in one burst.
    #[verifier::when_used_as_spec(spec_burst_size)]
    pub fn burst_size(&self) -> (r: u32)
        ensures
            r == self.spec_burst_size(),
    {
        self.max_burst
    }
}

} // verus!

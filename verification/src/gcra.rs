//! The decision engine, and what it tells a caller that it turns away.

use vstd::prelude::*;
use crate::clock::{advanced_to, elapsed_between, Reference};
use crate::errors::NegativeMultiDecision;
use crate::nanos::{capped_sum, floored_difference, in_nanos, Nanos};
use crate::quota::Quota;
use crate::state::StateStore;

verus! {

/// A negative rate-limiting outcome.
///
/// It says from when on a new decision could be a positive one, as far as
/// the limiter can tell by the state that it turned the cell away on.
#[derive(Debug, PartialEq)]
pub struct NotUntil<'a, P: Reference> {
    limiter: &'a Gcra,
    tat: Nanos,
    start: P,
}

impl<'a, P: Reference> NotUntil<'a, P> {
    /// The limiter that made the decision.
    pub closed spec fn limiter(&self) -> &'a Gcra {
        self.limiter
    }

    /// The earliest time at which the cell would have conformed, counted
    /// from [`NotUntil::origin`].
    pub closed spec fn earliest_time(&self) -> Nanos {
        self.tat
    }

    /// The point in time that the limiter counts from.
    pub closed spec fn origin(&self) -> P {
        self.start
    }

    /// Where [`NotUntil::earliest_possible`] lies on the clock's time line:
    /// the earliest time after the origin, or the clock's horizon if that
    /// lies beyond it.
    pub open spec fn earliest_possible_offset(&self) -> int {
        advanced_to(self.origin().offset(), self.earliest_time()@, P::horizon())
    }

    /// Where [`NotUntil::earliest_possible_with_offset`] lies on the clock's
    /// time line: as [`NotUntil::earliest_possible_offset`], with `jitter`
    /// added to the earliest time.
    pub open spec fn jittered_offset(&self, jitter: nat) -> int {
        advanced_to(
            self.origin().offset(),
            capped_sum(jitter, self.earliest_time()@),
            P::horizon(),
        )
    }

    /// Returns the earliest time at which a decision could be conforming
    /// (leaving aside the conforming decisions that the limiter makes in the
    /// meantime).
    pub fn earliest_possible(&self) -> (earliest: P)
        ensures
            earliest.offset() == self.earliest_possible_offset(),
    {
        let tat: Nanos = self.tat;
        self.start.saturating_add(tat)
    }

    /// Returns the least amount of time that must pass, counted from `from`,
    /// before a decision can be conforming: the time from `from` to
    /// [`NotUntil::earliest_possible`], and zero if that point is not later
    /// than `from`.
    pub fn wait_time_from(&self, from: P) -> (wait: Nanos)
        ensures
            wait@ == elapsed_between(from.offset(), self.earliest_possible_offset()),
            from.offset() >= self.earliest_possible_offset() ==> wait@ == 0,
            from.offset() < self.earliest_possible_offset() ==> wait@ == if
                self.earliest_possible_offset() - from.offset() <= u64::MAX {
                self.earliest_possible_offset() - from.offset()
            } else {
                u64::MAX as int
            },
    {
        let earliest = self.earliest_possible();
        // `duration_since` stops at zero by itself, so the two points need
        // not be put in order first.
        earliest.duration_since(from)
    }

    /// As [`NotUntil::earliest_possible`], for a caller that puts off its
    /// next attempt by `jitter`, an amount of time that it drew at random.
    pub fn earliest_possible_with_offset(&self, jitter: Nanos) -> (earliest: P)
        ensures
            earliest.offset() == self.jittered_offset(jitter@),
    {
        let tat = jitter.saturating_add(self.tat);
        self.start.saturating_add(tat)
    }

    /// As [`NotUntil::wait_time_from`], for a caller that puts off its next
    /// attempt by `jitter`, an amount of time that it drew at random.
    pub fn wait_time_with_offset(&self, from: P, jitter: Nanos) -> (wait: Nanos)
        ensures
            wait@ == elapsed_between(from.offset(), self.jittered_offset(jitter@)),
    {
        let earliest = self.earliest_possible_with_offset(jitter);
        earliest.duration_since(from)
    }

    /// The text that says until when the caller is rate-limited: the words
    /// `rate-limited until` and the point in time of
    /// [`NotUntil::earliest_possible`], as its clock shows it.
    pub fn to_string(&self) -> (text: String)
        ensures
            text@ == "rate-limited until "@ + P::rendering(self.earliest_possible_offset()),
    {
        let earliest = self.earliest_possible();
        let shown = earliest.render();
        let mut text = String::from_str("rate-limited until ");
        text.append(shown.as_str());
        text
    }
}

/// The decision engine of the Generic Cell Rate Algorithm.
///
/// It holds the two constants of a quota and nothing else. What changes
/// over time, one theoretical arrival time per key, is kept in a
/// [`StateStore`].
#[derive(Debug, PartialEq)]
pub struct Gcra {
    // The "weight" of a single cell in units of time.
    t: Nanos,
    // The "capacity" of the bucket.
    tau: Nanos,
}

impl Gcra {
    /// The weight of one cell: the time that it takes to replenish.
    pub closed spec fn t(&self) -> Nanos {
        self.t
    }

    /// The capacity of the bucket: the weight of the largest burst.
    pub closed spec fn tau(&self) -> Nanos {
        self.tau
    }

    /// The number of cells in the largest burst.
    pub open spec fn max_burst(&self) -> nat {
        self.tau()@ / self.t()@
    }

    /// What holds of every engine: a cell weighs something, and the bucket
    /// holds a whole number of cells, at least one.
    #[verifier::type_invariant]
    pub open spec fn wf(&self) -> bool {
        &&& self.t()@ > 0
        &&& self.tau()@ == self.t()@ * self.max_burst()
        &&& 1 <= self.max_burst() <= u32::MAX
    }

    /// The theoretical arrival time that a cell arriving at `now` is judged
    /// by: the stored one or, for a key that has none yet, that of a key
    /// that was charged one cell at `now`.
    pub open spec fn tat_in_force(&self, stored: Option<nat>, now: nat) -> nat {
        match stored {
            Some(tat) => tat,
            None => capped_sum(now, self.t()@),
        }
    }

    /// The earliest time at which one cell and `additional_weight` beside it
    /// conform, given what is stored.
    pub open spec fn earliest_time(&self, additional_weight: nat, stored: Option<nat>, now: nat)
        -> nat {
        floored_difference(
            capped_sum(self.tat_in_force(stored, now), additional_weight),
            self.tau()@,
        )
    }

    /// Whether one cell and `additional_weight` beside it conform at `now`,
    /// given what is stored.
    pub open spec fn conforms(&self, additional_weight: nat, stored: Option<nat>, now: nat)
        -> bool {
        now >= self.earliest_time(additional_weight, stored, now)
    }

    /// The theoretical arrival time once one cell and `additional_weight`
    /// beside it were let through at `now`.
    pub open spec fn next_tat(&self, additional_weight: nat, stored: Option<nat>, now: nat)
        -> nat {
        let tat = self.tat_in_force(stored, now);
        let later = if tat < now {
            now
        } else {
            tat
        };
        capped_sum(capped_sum(later, self.t()@), additional_weight)
    }

    /// Whether `refusal` is what a cell of `additional_weight` beside its
    /// own is turned away with at `now`, given what is stored: it does not
    /// conform, and the refusal names this engine, the earliest time at
    /// which the cell would have conformed, and the point `start` that time
    /// is counted from.
    pub open spec fn refuses<P: Reference>(
        &self,
        start: P,
        additional_weight: nat,
        stored: Option<nat>,
        now: nat,
        refusal: NotUntil<P>,
    ) -> bool {
        &&& !self.conforms(additional_weight, stored, now)
        &&& refusal.limiter() == self
        &&& refusal.earliest_time()@ == self.earliest_time(additional_weight, stored, now)
        &&& refusal.origin() == start
    }

    /// Whether `decision` is the decision on one cell and
    /// `additional_weight` beside it at `now`, given what is stored: the
    /// new theoretical arrival time if they conform, the refusal if not.
    pub open spec fn decides<P: Reference>(
        &self,
        start: P,
        additional_weight: nat,
        stored: Option<nat>,
        now: nat,
        decision: Result<((), Nanos), NotUntil<P>>,
    ) -> bool {
        match decision {
            Ok((_, next)) => {
                &&& self.conforms(additional_weight, stored, now)
                &&& next@ == self.next_tat(additional_weight, stored, now)
            },
            Err(refusal) => self.refuses(start, additional_weight, stored, now, refusal),
        }
    }

    /// Whether `outcome` is what the caller of a single-cell test at `now`
    /// is told, given what is stored.
    pub open spec fn tells<P: Reference>(
        &self,
        start: P,
        stored: Option<nat>,
        now: nat,
        outcome: Result<(), NotUntil<P>>,
    ) -> bool {
        match outcome {
            Ok(_) => self.conforms(0, stored, now),
            Err(refusal) => self.refuses(start, 0, stored, now, refusal),
        }
    }

    /// Whether a batch of `n` cells is within the bucket's capacity.
    pub open spec fn fits(&self, n: nat) -> bool {
        self.t()@ * n <= self.tau()@
    }

    /// Whether `decision` is the decision on a batch of `n` cells at `now`,
    /// given what is stored, where the batch is within the bucket's
    /// capacity: the new theoretical arrival time if the batch conforms, and
    /// if not, the size of the batch and the refusal.
    pub open spec fn decides_batch<P: Reference>(
        &self,
        start: P,
        n: u32,
        stored: Option<nat>,
        now: nat,
        decision: Result<((), Nanos), NegativeMultiDecision<NotUntil<P>>>,
    ) -> bool {
        let additional_weight = (self.t()@ * (n - 1)) as nat;
        match decision {
            Ok((_, next)) => {
                &&& self.conforms(additional_weight, stored, now)
                &&& next@ == self.next_tat(additional_weight, stored, now)
            },
            Err(NegativeMultiDecision::BatchNonConforming(cells, refusal)) => {
                &&& cells == n
                &&& self.refuses(start, additional_weight, stored, now, refusal)
            },
            Err(NegativeMultiDecision::InsufficientCapacity(_)) => false,
        }
    }

    /// Whether `outcome` is what the caller of a test of `n` cells at `now`
    /// is told, given what is stored, where the batch is within the
    /// bucket's capacity.
    pub open spec fn tells_batch<P: Reference>(
        &self,
        start: P,
        n: u32,
        stored: Option<nat>,
        now: nat,
        outcome: Result<(), NegativeMultiDecision<NotUntil<P>>>,
    ) -> bool {
        let additional_weight = (self.t()@ * (n - 1)) as nat;
        match outcome {
            Ok(_) => self.conforms(additional_weight, stored, now),
            Err(NegativeMultiDecision::BatchNonConforming(cells, refusal)) => {
                &&& cells == n
                &&& self.refuses(start, additional_weight, stored, now, refusal)
            },
            Err(NegativeMultiDecision::InsufficientCapacity(_)) => false,
        }
    }

    /// The engine for `quota`.
    pub fn new(quota: Quota) -> (gcra: Gcra)
        ensures
            gcra.wf(),
            gcra.t() == quota.spec_replenish_interval(),
            gcra.tau()@ == quota.spec_replenish_interval()@ * quota.spec_burst_size(),
            gcra.max_burst() == quota.spec_burst_size(),
    {
        proof {
            use_type_invariant(&quota);
        }
        let t: Nanos = quota.replenish_interval();
        let burst: u64 = quota.burst_size() as u64;
        let tau: Nanos = Nanos::new(t.as_u64() * burst);
        proof {
            vstd::arithmetic::div_mod::lemma_div_by_multiple(burst as int, t@ as int);
            vstd::arithmetic::mul::lemma_mul_is_commutative(burst as int, t@ as int);
        }
        Gcra { tau, t }
    }

    /// Computes and returns a new ratelimiter state if none exists yet:
    /// that of a key that was charged one cell at `t0`.
    pub fn starting_state(&self, t0: Nanos) -> (tat: Nanos)
        ensures
            tat@ == self.tat_in_force(None, t0@),
            tat@ == capped_sum(t0@, self.t()@),
    {
        t0.saturating_add(self.t)
    }

    /// The capacity guard for a batch of `n` cells. A batch that the bucket
    /// can hold gets the weight of its cells after the first. A batch that
    /// it cannot hold, however empty it is, gets the size of the largest
    /// batch that it can.
    pub fn additional_weight(&self, n: u32) -> (r: Result<Nanos, u32>)
        requires
            n >= 1,
        ensures
            self.fits(n as nat) ==> (r matches Ok(weight) && weight@ == self.t()@ * (n - 1)),
            !self.fits(n as nat) ==> (r matches Err(largest) && largest == self.max_burst()),
    {
        proof {
            use_type_invariant(self);
        }
        let t: u64 = self.t.as_u64();
        let tau: u64 = self.tau.as_u64();
        assert(t * n <= u64::MAX * u32::MAX && t * (n - 1) + t == t * n) by (nonlinear_arith)
            requires
                t <= u64::MAX,
                1 <= n <= u32::MAX,
        ;
        let weight: u128 = (t as u128) * (n as u128);
        if weight > tau as u128 {
            Err((tau / t) as u32)
        } else {
            Ok(Nanos::new((weight - t as u128) as u64))
        }
    }

    /// Decides on one cell and `additional_weight` beside it that arrive at
    /// `t0`, given the theoretical arrival time `stored` for their key, if
    /// there is one. They conform if `t0` is not before the earliest time at
    /// which they fit into the bucket. Then the decision holds the key's
    /// new theoretical arrival time. If they do not conform, it holds the
    /// refusal, and the key's state is to stay as it is.
    ///
    /// This is the whole of the algorithm. The two tests hand it to a
    /// [`StateStore`], which runs it on what it holds.
    pub fn decide<P: Reference>(
        &self,
        start: P,
        additional_weight: Nanos,
        stored: Option<Nanos>,
        t0: Nanos,
    ) -> (decision: Result<((), Nanos), NotUntil<P>>)
        ensures
            self.decides(start, additional_weight@, in_nanos(stored), t0@, decision),
            stored is None && additional_weight@ + self.t()@ <= self.tau()@ ==> decision is Ok,
            stored is None && additional_weight@ == 0 ==> decision is Ok,
            decision matches Ok((_, next)) ==> next@ >= t0@ && (stored matches Some(tat) ==> next@
                >= tat@),
    {
        proof {
            use_type_invariant(self);
            assert(self.t()@ <= self.tau()@) by (nonlinear_arith)
                requires
                    self.tau()@ == self.t()@ * self.max_burst(),
                    self.max_burst() >= 1,
            ;
        }
        let tat = match stored {
            Some(tat) => tat,
            None => self.starting_state(t0),
        };
        let earliest_time = tat.saturating_add(additional_weight).saturating_sub(self.tau);
        if t0.as_u64() < earliest_time.as_u64() {
            Err(NotUntil { limiter: self, tat: earliest_time, start })
        } else {
            let later = if tat.as_u64() < t0.as_u64() {
                t0
            } else {
                tat
            };
            Ok(((), later.saturating_add(self.t).saturating_add(additional_weight)))
        }
    }

    /// Tests a single cell against the rate limiter state and updates it at
    /// the given key.
    ///
    /// The cell arrives at `t0`; `start` is the point that the limiter
    /// counts time from. What the caller is told is what [`Gcra::decide`]
    /// says on the theoretical arrival time that the store held for the key
    /// when the decision was made. Which value that was is the store's to
    /// say.
    pub fn test_and_update<K, P: Reference, S: StateStore<Key = K>>(
        &self,
        start: P,
        key: &K,
        state: &S,
        t0: P,
    ) -> (outcome: Result<(), NotUntil<P>>)
        ensures
            exists|stored: Option<Nanos>| #[trigger]
                self.tells(
                    start,
                    in_nanos(stored),
                    elapsed_between(start.offset(), t0.offset()),
                    outcome,
                ),
            outcome matches Err(refusal) ==> {
                &&& refusal.limiter() == self
                &&& refusal.origin() == start
                &&& refusal.earliest_time()@ > elapsed_between(start.offset(), t0.offset())
            },
            elapsed_between(start.offset(), t0.offset()) + self.tau()@ >= u64::MAX
                ==> outcome is Ok,
    {
        let t0 = t0.duration_since(start);
        let outcome = state.measure_and_replace(
            key,
            |tat: Option<Nanos>| -> (decision: Result<((), Nanos), NotUntil<P>>)
                ensures
                    self.decides(start, 0, in_nanos(tat), t0@, decision)
                { self.decide(start, Nanos::new(0), tat, t0) },
        );
        proof {
            let (stored, decision) = choose|
                stored: Option<Nanos>,
                decision: Result<((), Nanos), NotUntil<P>>,
            |
                self.decides(start, 0, in_nanos(stored), t0@, decision) && outcome
                    == crate::state::verdict_of(decision);
            assert(self.tells(start, in_nanos(stored), t0@, outcome));
        }
        outcome
    }

    /// Tests whether all `n` cells could be accommodated and updates the
    /// rate limiter state, if so.
    ///
    /// A batch is let through whole or not at all. One that holds more cells
    /// than the bucket has room for when empty is turned away for good,
    /// before the store is asked for anything. Any other batch is judged as
    /// [`Gcra::decide`] says, on the theoretical arrival time that the store
    /// held for the key when the decision was made.
    pub fn test_n_all_and_update<K, P: Reference, S: StateStore<Key = K>>(
        &self,
        start: P,
        key: &K,
        n: u32,
        state: &S,
        t0: P,
    ) -> (outcome: Result<(), NegativeMultiDecision<NotUntil<P>>>)
        requires
            n >= 1,
        ensures
            !self.fits(n as nat) ==> outcome == Err::<(), NegativeMultiDecision<NotUntil<P>>>(
                NegativeMultiDecision::InsufficientCapacity(self.max_burst() as u32),
            ),
            self.fits(n as nat) ==> exists|stored: Option<Nanos>| #[trigger]
                self.tells_batch(
                    start,
                    n,
                    in_nanos(stored),
                    elapsed_between(start.offset(), t0.offset()),
                    outcome,
                ),
            outcome matches Err(NegativeMultiDecision::BatchNonConforming(cells, refusal)) ==> {
                &&& cells == n
                &&& refusal.limiter() == self
                &&& refusal.origin() == start
                &&& refusal.earliest_time()@ > elapsed_between(start.offset(), t0.offset())
            },
            self.fits(n as nat) && elapsed_between(start.offset(), t0.offset()) + self.tau()@
                >= u64::MAX ==> outcome is Ok,
    {
        let t0 = t0.duration_since(start);
        // The weight of the cells after the first. A batch that weighs more
        // than the bucket holds can never pass: that is settled here, and
        // the store is not asked.
        let additional_weight = match self.additional_weight(n) {
            Ok(weight) => weight,
            Err(largest) => {
                return Err(NegativeMultiDecision::InsufficientCapacity(largest));
            },
        };
        let outcome = state.measure_and_replace(
            key,
            |tat: Option<Nanos>| -> (decision: Result<
                ((), Nanos),
                NegativeMultiDecision<NotUntil<P>>,
            >)
                ensures
                    self.decides_batch(start, n, in_nanos(tat), t0@, decision)
                {
                    match self.decide(start, additional_weight, tat, t0) {
                        Ok(accepted) => Ok(accepted),
                        Err(refusal) => Err(
                            NegativeMultiDecision::BatchNonConforming(n, refusal),
                        ),
                    }
                },
        );
        proof {
            let (stored, decision) = choose|
                stored: Option<Nanos>,
                decision: Result<((), Nanos), NegativeMultiDecision<NotUntil<P>>>,
            |
                self.decides_batch(start, n, in_nanos(stored), t0@, decision) && outcome
                    == crate::state::verdict_of(decision);
            assert(self.tells_batch(start, n, in_nanos(stored), t0@, outcome));
        }
        outcome
    }
}

} // verus!

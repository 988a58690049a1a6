//! What holds of the engine's decisions when they are made one after
//! another on one key.
//!
//! A store installs the theoretical arrival time of a decision that lets a
//! cell through and leaves its entry alone when the cell is turned away, one
//! decision at a time. [`held_after`] is that step for one decision and
//! [`held_after_all`] for a run of them. The laws below are stated over
//! these and over the engine's own description of a decision.

use vstd::prelude::*;
use crate::clock::{elapsed_between, Reference};
use crate::gcra::{Gcra, NotUntil};
use crate::nanos::{in_nanos, Nanos};
use crate::state::stored_after;

verus! {

/// What a key's entry holds once the engine has decided at `now` on one
/// cell and `additional_weight` beside it, given what the entry held
/// before.
pub open spec fn held_after(
    gcra: Gcra,
    additional_weight: nat,
    stored: Option<nat>,
    now: nat,
) -> Option<nat> {
    if gcra.conforms(additional_weight, stored, now) {
        Some(gcra.next_tat(additional_weight, stored, now))
    } else {
        stored
    }
}

/// What a key's entry holds once single cells were tested at each of the
/// times `arrivals`, in that order.
pub open spec fn held_after_all(gcra: Gcra, stored: Option<nat>, arrivals: Seq<Nanos>) -> Option<
    nat,
>
    decreases arrivals.len(),
{
    if arrivals.len() == 0 {
        stored
    } else {
        held_after(
            gcra,
            0,
            held_after_all(gcra, stored, arrivals.drop_last()),
            arrivals.last()@,
        )
    }
}

/// How many of the single cells tested at the times `arrivals`, in that
/// order, were let through.
pub open spec fn admitted(gcra: Gcra, stored: Option<nat>, arrivals: Seq<Nanos>) -> nat
    decreases arrivals.len(),
{
    if arrivals.len() == 0 {
        0
    } else {
        let before = held_after_all(gcra, stored, arrivals.drop_last());
        let one: nat = if gcra.conforms(0, before, arrivals.last()@) {
            1
        } else {
            0
        };
        admitted(gcra, stored, arrivals.drop_last()) + one
    }
}

/// `count` arrivals at the one time `now`.
pub open spec fn all_at(now: Nanos, count: nat) -> Seq<Nanos> {
    Seq::new(count, |i: int| now)
}

/// Whether an entry that held `earlier` and then `later` has not moved
/// back. An entry that held nothing can only have moved forward.
pub open spec fn not_moved_back(earlier: Option<nat>, later: Option<nat>) -> bool {
    match (earlier, later) {
        (None, _) => true,
        (Some(_), None) => false,
        (Some(before), Some(after)) => before <= after,
    }
}

/// Whether what an entry holds is a time value.
pub open spec fn is_time_value(stored: Option<nat>) -> bool {
    stored matches Some(tat) ==> tat <= u64::MAX
}

/// The entry that a store is to hold after a decision of the engine is the
/// one that [`held_after`] describes.
pub proof fn store_holds_what_was_decided<P: Reference>(
    gcra: Gcra,
    start: P,
    additional_weight: nat,
    stored: Option<Nanos>,
    now: Nanos,
    decision: Result<((), Nanos), NotUntil<P>>,
)
    requires
        gcra.decides(start, additional_weight, in_nanos(stored), now@, decision),
    ensures
        in_nanos(stored_after(stored, decision)) == held_after(
            gcra,
            additional_weight,
            in_nanos(stored),
            now@,
        ),
{
}

/// What an entry holds after a run of single-cell tests is a time value
/// again.
pub proof fn held_after_all_stays_time_value(
    gcra: Gcra,
    stored: Option<Nanos>,
    arrivals: Seq<Nanos>,
)
    ensures
        is_time_value(held_after_all(gcra, in_nanos(stored), arrivals)),
    decreases arrivals.len(),
{
    if arrivals.len() > 0 {
        held_after_all_stays_time_value(gcra, stored, arrivals.drop_last());
    }
}

/// One more arrival is one more step: what the entry holds after the first
/// `k + 1` arrivals is what one test at the last of them makes of what it
/// held after the first `k`.
pub proof fn held_after_one_more(gcra: Gcra, stored: Option<nat>, arrivals: Seq<Nanos>, k: int)
    requires
        0 <= k < arrivals.len(),
    ensures
        held_after_all(gcra, stored, arrivals.take(k + 1)) == held_after(
            gcra,
            0,
            held_after_all(gcra, stored, arrivals.take(k)),
            arrivals[k]@,
        ),
{
    assert(arrivals.take(k + 1).drop_last() =~= arrivals.take(k));
}

/// A cell that is turned away leaves no trace: asked again at the same
/// time, any number of times, the engine turns it away each time, on the
/// same state and with the same earliest time.
pub proof fn refusal_is_repeated(gcra: Gcra, stored: Option<Nanos>, now: Nanos, times: nat)
    requires
        !gcra.conforms(0, in_nanos(stored), now@),
    ensures
        held_after_all(gcra, in_nanos(stored), all_at(now, times)) == in_nanos(stored),
        admitted(gcra, in_nanos(stored), all_at(now, times)) == 0,
        gcra.earliest_time(0, held_after_all(gcra, in_nanos(stored), all_at(now, times)), now@)
            == gcra.earliest_time(0, in_nanos(stored), now@),
    decreases times,
{
    if times > 0 {
        let shorter = (times - 1) as nat;
        assert(all_at(now, times).drop_last() =~= all_at(now, shorter));
        refusal_is_repeated(gcra, stored, now, shorter);
    }
}

/// A decision never moves a key's theoretical arrival time back, whether
/// it lets the cells through or not.
pub proof fn decision_never_moves_tat_back(
    gcra: Gcra,
    additional_weight: nat,
    stored: Option<Nanos>,
    now: Nanos,
)
    ensures
        not_moved_back(
            in_nanos(stored),
            held_after(gcra, additional_weight, in_nanos(stored), now@),
        ),
{
}

/// Over any run of single-cell tests, the theoretical arrival time that is
/// stored never moves back: what the entry holds after the first `i`
/// arrivals is not later than what it holds after the first `j`, for
/// `i <= j`.
pub proof fn tat_never_moves_back(
    gcra: Gcra,
    stored: Option<Nanos>,
    arrivals: Seq<Nanos>,
    i: int,
    j: int,
)
    requires
        0 <= i <= j <= arrivals.len(),
    ensures
        not_moved_back(
            held_after_all(gcra, in_nanos(stored), arrivals.take(i)),
            held_after_all(gcra, in_nanos(stored), arrivals.take(j)),
        ),
    decreases j - i,
{
    if i < j {
        tat_never_moves_back(gcra, stored, arrivals, i, j - 1);
        held_after_one_more(gcra, in_nanos(stored), arrivals, j - 1);
        held_after_all_stays_time_value(gcra, stored, arrivals.take(j - 1));
    }
}

/// The earliest time of a refusal is the first time at which the same cells
/// conform, as long as the key's entry stays as it is: on a key that has an
/// entry, they conform at `later` exactly if `later` is not before the
/// earliest time that they were given at `now`.
pub proof fn earliest_time_is_first_to_conform(
    gcra: Gcra,
    additional_weight: nat,
    tat: Nanos,
    now: Nanos,
    later: Nanos,
)
    ensures
        gcra.earliest_time(additional_weight, Some(tat@), later@) == gcra.earliest_time(
            additional_weight,
            Some(tat@),
            now@,
        ),
        gcra.conforms(additional_weight, Some(tat@), later@) <==> later@ >= gcra.earliest_time(
            additional_weight,
            Some(tat@),
            now@,
        ),
{
}

/// A caller that was turned away before the clock's horizon has to wait:
/// from the time at which it asked, the wait is not zero. Where the clock
/// did not run beyond the range of time values since the origin, and the
/// earliest possible time is not beyond its horizon, the wait is the time
/// from `now` to the earliest time.
pub proof fn refused_caller_has_to_wait<P: Reference>(
    gcra: Gcra,
    start: P,
    additional_weight: nat,
    stored: Option<Nanos>,
    now: P,
    refusal: NotUntil<P>,
)
    requires
        gcra.refuses(
            start,
            additional_weight,
            in_nanos(stored),
            elapsed_between(start.offset(), now.offset()),
            refusal,
        ),
        start.offset() <= now.offset() < P::horizon(),
    ensures
        elapsed_between(now.offset(), refusal.earliest_possible_offset()) > 0,
        now.offset() - start.offset() <= u64::MAX && start.offset() + refusal.earliest_time()@
            <= P::horizon() ==> elapsed_between(now.offset(), refusal.earliest_possible_offset())
            == refusal.earliest_time()@ - elapsed_between(start.offset(), now.offset()),
{
}

/// The first cell of a key that was never seen is let through, whenever it
/// arrives and whatever the quota. The earliest time of a decision is never
/// negative: it is a time value.
pub proof fn first_cell_is_admitted(gcra: Gcra, now: Nanos)
    requires
        gcra.wf(),
    ensures
        gcra.conforms(0, None, now@),
        0 <= gcra.earliest_time(0, None, now@) <= now@,
{
    assert(gcra.t()@ <= gcra.tau()@) by (nonlinear_arith)
        requires
            gcra.tau()@ == gcra.t()@ * gcra.max_burst(),
            gcra.max_burst() >= 1,
    ;
}

/// A batch is within the bucket's capacity exactly if it holds no more
/// cells than the largest burst. So whether a batch is turned away for good
/// depends on its size and the quota alone, not on the time or on what is
/// stored.
pub proof fn fits_up_to_max_burst(gcra: Gcra, n: nat)
    requires
        gcra.wf(),
    ensures
        gcra.fits(n) <==> n <= gcra.max_burst(),
{
    let t = gcra.t()@ as int;
    let burst = gcra.max_burst() as int;
    if n <= burst {
        vstd::arithmetic::mul::lemma_mul_inequality(n as int, burst, t);
        vstd::arithmetic::mul::lemma_mul_is_commutative(n as int, t);
        vstd::arithmetic::mul::lemma_mul_is_commutative(burst, t);
    } else {
        vstd::arithmetic::mul::lemma_mul_strict_inequality(burst, n as int, t);
        vstd::arithmetic::mul::lemma_mul_is_commutative(n as int, t);
        vstd::arithmetic::mul::lemma_mul_is_commutative(burst, t);
    }
}

/// A batch passes whole or not at all. If it is let through, the key is
/// charged for all `n` cells, counted from the later of its theoretical
/// arrival time and `now`. If it is turned away, the key is charged for
/// none.
pub proof fn batch_is_all_or_nothing(gcra: Gcra, n: nat, stored: Option<Nanos>, now: Nanos)
    requires
        gcra.wf(),
        n >= 1,
    ensures
        ({
            let additional_weight = (gcra.t()@ * (n - 1)) as nat;
            let tat = gcra.tat_in_force(in_nanos(stored), now@);
            let later = if tat < now@ {
                now@
            } else {
                tat
            };
            let held = held_after(gcra, additional_weight, in_nanos(stored), now@);
            if gcra.conforms(additional_weight, in_nanos(stored), now@) {
                if later + gcra.t()@ * n <= u64::MAX {
                    held == Some(later + gcra.t()@ * n)
                } else {
                    held == Some(u64::MAX as nat)
                }
            } else {
                held == in_nanos(stored)
            }
        }),
{
    let t = gcra.t()@ as int;
    assert(t * (n - 1) + t == t * n) by (nonlinear_arith);
    assert(t * (n - 1) >= 0) by (nonlinear_arith)
        requires
            t > 0,
            n >= 1,
    ;
}

/// A batch of as many cells as the largest burst holds is let through on a
/// key that was never seen, and fills the bucket: a single cell that
/// arrives at the same time is turned away, and could have conformed one
/// cell's weight later at the earliest.
pub proof fn full_burst_fills_the_bucket(gcra: Gcra, now: Nanos)
    requires
        gcra.wf(),
        now@ + gcra.t()@ + gcra.tau()@ <= u64::MAX,
    ensures
        ({
            let additional_weight = (gcra.t()@ * (gcra.max_burst() - 1)) as nat;
            let held = held_after(gcra, additional_weight, None, now@);
            &&& gcra.fits(gcra.max_burst())
            &&& gcra.conforms(additional_weight, None, now@)
            &&& held == Some(now@ + gcra.t()@ + gcra.tau()@)
            &&& !gcra.conforms(0, held, now@)
            &&& gcra.earliest_time(0, held, now@) == now@ + gcra.t()@
        }),
{
    let t = gcra.t()@ as int;
    let burst = gcra.max_burst() as int;
    assert(t * (burst - 1) + t == t * burst) by (nonlinear_arith);
    assert(t * (burst - 1) >= 0) by (nonlinear_arith)
        requires
            t > 0,
            burst >= 1,
    ;
}

/// What the entry of a key that was never seen holds after `count` single
/// cells that all arrive at `now`: nothing if there were none, and else
/// the theoretical arrival time of a key that was charged one cell at `now`
/// and one more for each cell that was let through.
proof fn burst_at_one_time(gcra: Gcra, now: Nanos, count: nat)
    requires
        gcra.wf(),
        now@ + gcra.t()@ * (gcra.max_burst() + 1) <= u64::MAX,
    ensures
        admitted(gcra, None, all_at(now, count)) == if count <= gcra.max_burst() {
            count
        } else {
            gcra.max_burst()
        },
        held_after_all(gcra, None, all_at(now, count)) == if count == 0 {
            None
        } else if count <= gcra.max_burst() {
            Some((now@ + gcra.t()@ * (count + 1)) as nat)
        } else {
            Some((now@ + gcra.t()@ * (gcra.max_burst() + 1)) as nat)
        },
    decreases count,
{
    if count > 0 {
        let before = (count - 1) as nat;
        let t = gcra.t()@ as int;
        let tau = gcra.tau()@ as int;
        let burst = gcra.max_burst() as int;
        assert(all_at(now, count).drop_last() =~= all_at(now, before));
        burst_at_one_time(gcra, now, before);
        assert(t * (burst + 1) == tau + t) by (nonlinear_arith)
            requires
                tau == t * burst,
        ;
        if count == 1 {
            // The first cell: nothing is stored yet.
            assert(t * (count + 1) == t + t && t * (count + 1) <= t * (burst + 1))
                by (nonlinear_arith)
                requires
                    count == 1,
                    burst >= 1,
                    t > 0,
            ;
        } else if count <= burst {
            // One more cell of a burst that the bucket holds.
            assert(t * count <= tau && t * (count + 1) == t * count + t && t * (count + 1) <= t
                * (burst + 1)) by (nonlinear_arith)
                requires
                    tau == t * burst,
                    1 <= count <= burst,
                    t > 0,
            ;
        }
    }
}

/// Of any number of single cells that arrive for a key that was never seen,
/// all at the same time, the engine lets through as many as the largest
/// burst holds and turns the others away, whichever of them it decides on
/// first. The time must leave room for the weight of one burst and one
/// more cell before the longest time value.
pub proof fn burst_admits_exactly_max_burst(gcra: Gcra, now: Nanos, callers: nat)
    requires
        gcra.wf(),
        now@ + gcra.t()@ * (gcra.max_burst() + 1) <= u64::MAX,
    ensures
        callers <= gcra.max_burst() ==> admitted(gcra, None, all_at(now, callers)) == callers,
        callers > gcra.max_burst() ==> admitted(gcra, None, all_at(now, callers))
            == gcra.max_burst(),
{
    burst_at_one_time(gcra, now, callers);
}

} // verus!

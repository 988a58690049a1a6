//! Where a limiter's state is kept.

use vstd::prelude::*;
use crate::nanos::Nanos;

verus! {

/// What the caller of an atomic update is handed: the value that the
/// decision came with, or its refusal.
pub open spec fn verdict_of<T, E>(decision: Result<(T, Nanos), E>) -> Result<T, E> {
    match decision {
        Ok((value, _)) => Ok(value),
        Err(refusal) => Err(refusal),
    }
}

/// What a store holds at a key after an atomic update whose decision was
/// `decision`: the time value that came with an acceptance, or, after a
/// refusal, what it held before.
pub open spec fn stored_after<T, E>(stored: Option<Nanos>, decision: Result<(T, Nanos), E>)
    -> Option<Nanos> {
    match decision {
        Ok((_, next)) => Some(next),
        Err(_) => stored,
    }
}

/// A store that keeps one time value per key and updates it atomically.
///
/// The limiter holds no state of its own: what it knows of a key is the one
/// time value that a store keeps for it. The store may be shared by many
/// callers at once. What it must see to is that a decision and the update
/// that follows from it are one step: no two accepted decisions for one key
/// may both have been made on the same stored value.
pub trait StateStore {
    /// What the store's entries are found by.
    type Key;

    /// Hands `f` the time value stored at `key`, or `None` if nothing is
    /// stored there yet. If `f` accepts, the time value it returns is stored
    /// at `key` and the caller gets the value that came with it; if `f`
    /// refuses, the entry stays as it is and the caller gets the refusal.
    ///
    /// A store may have to call `f` more than once, on one stored value
    /// after another, until one of its decisions can be installed. What the
    /// caller is handed is the verdict of the decision that stands in the
    /// end, which `f` made on what the store held at that moment.
    fn measure_and_replace<T, F, E>(&self, key: &Self::Key, f: F) -> (r: Result<T, E>)
        where F: Fn(Option<Nanos>) -> Result<(T, Nanos), E>
        requires
            forall|stored: Option<Nanos>| call_requires(f, (stored,)),
        ensures
            exists|stored: Option<Nanos>, decision: Result<(T, Nanos), E>|
                #[trigger] call_ensures(f, (stored,), decision) && r == verdict_of(decision),
    ;
}

} // verus!

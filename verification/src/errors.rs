//! Why a batch of cells is not let through.

use vstd::prelude::*;

verus! {

/// The two ways in which a batch of cells can be refused.
///
/// They call for different answers. A batch that does not conform now may
/// be tried again later. A batch that is larger than the limiter's whole
/// capacity will never pass, however long the caller waits.
#[derive(Debug, PartialEq, Eq)]
pub enum NegativeMultiDecision<E> {
    /// The batch, of as many cells as the first field says, does not conform
    /// at this time. The second field says when it could.
    BatchNonConforming(u32, E),
    /// The batch holds more cells than the limiter can ever let through at
    /// once. The field is the largest batch that it can.
    InsufficientCapacity(u32),
}

} // verus!

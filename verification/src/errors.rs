//! The errors of admission tests.
use vstd::prelude::*;

verus! {

/// A batch of cells is larger than the bucket: it can never be admitted,
/// whatever the state. Holds the largest batch that can.
#[derive(Clone, Copy, Debug, PartialEq, Eq, Structural)]
pub struct InsufficientCapacity(pub u32);

} // verus!

use vstd::prelude::*;

verus! {

/// The ways a core operation can refuse its input.
#[derive(Clone, Copy, Debug, PartialEq, Eq, Structural)]
pub enum Fault {
    /// A step vector or index does not name one of the four directions.
    InvalidDirection,
    /// A cell address lies outside the grid.
    OutOfBounds,
}

} // verus!

//! Board coordinates as the players see them: a pair of 1-based integers.

use vstd::prelude::*;

verus! {

/// A point of the grid. Both axes start at 1; whether a point lies on a given
/// board is for the board to say.
#[derive(Copy, Clone, PartialEq, Eq, Structural, Debug)]
pub struct CoordinationFlat {
    pub x: usize,
    pub y: usize,
}

impl CoordinationFlat {
    pub fn new(x: usize, y: usize) -> (coord: CoordinationFlat)
        ensures
            coord.x == x,
            coord.y == y,
    {
        CoordinationFlat { x, y }
    }
}

} // verus!

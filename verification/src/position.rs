//! Planar position of a node or a pipe vertex. Coordinates are carried as
//! the bit patterns of IEEE-754 single-precision floats; the solver never
//! computes with them.

use vstd::prelude::*;

verus! {

#[derive(Debug, Clone, PartialEq, Eq, Structural)]
pub struct Position {
    /// x coordinate, bits of a single-precision float
    pub x: u32,
    /// y coordinate, bits of a single-precision float
    pub y: u32,
}

impl Position {
    pub fn new(x: u32, y: u32) -> (r: Self)
        ensures
            r == (Position { x, y }),
    {
        Position { x, y }
    }
}

impl Default for Position {
    /// The origin: both coordinates are +0.0.
    fn default() -> (r: Self)
        ensures
            r == (Position { x: 0u32, y: 0u32 }),
    {
        Position { x: 0, y: 0 }
    }
}

} // verus!

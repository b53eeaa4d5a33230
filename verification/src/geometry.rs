//! Positions in the game world.

use vstd::prelude::*;

verus! {

/// A point in the world. Each coordinate is an `f64`, held by its bit pattern.
#[derive(Clone, Copy, Debug, PartialEq, Eq, Structural)]
pub struct Position {
    pub x: u64,
    pub y: u64,
    pub z: u64,
}

impl Position {
    /// The origin: `(0.0, 0.0, 0.0)`.
    pub open spec fn spec_origin() -> Position {
        Position { x: 0, y: 0, z: 0 }
    }

    /// The origin, where every player starts.
    pub fn origin() -> (r: Position)
        ensures
            r == Position::spec_origin(),
    {
        Position { x: 0, y: 0, z: 0 }
    }
}

} // verus!

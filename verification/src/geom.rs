//! Fixed-point geometry for the logical touch coordinate space.
//!
//! The platform layer normalises physical touch samples into a logical
//! space whose x axis runs from 0 to one unit; everything here carries a
//! coordinate as thousandths of that unit, so the core never touches
//! floating point.

use vstd::prelude::*;

verus! {

/// Thousandths of the logical unit that make up one axis.
pub const COORD_SCALE: i32 = 1000;

/// A touch position, in thousandths of the logical unit per axis.
#[derive(Clone, Copy, Debug, PartialEq, Eq, Structural)]
pub struct Pos {
    pub x: i32,
    pub y: i32,
}

impl Pos {
    pub fn new(x: i32, y: i32) -> (p: Self)
        ensures
            p == (Pos { x, y }),
    {
        Pos { x, y }
    }
}

/// The difference between two consecutive touch positions.
#[derive(Clone, Copy, Debug, PartialEq, Eq, Structural)]
pub struct Delta {
    pub x: i64,
    pub y: i64,
}

/// The step from `from` to `to`, coordinate-wise.
pub open spec fn spec_delta(from: Pos, to: Pos) -> Delta {
    Delta { x: (to.x - from.x) as i64, y: (to.y - from.y) as i64 }
}

impl Delta {
    pub fn new(x: i64, y: i64) -> (d: Self)
        ensures
            d == (Delta { x, y }),
    {
        Delta { x, y }
    }

    /// Executable twin of [`spec_delta`].
    pub fn between(from: Pos, to: Pos) -> (d: Self)
        ensures
            d == spec_delta(from, to),
    {
        Delta { x: to.x as i64 - from.x as i64, y: to.y as i64 - from.y as i64 }
    }
}

} // verus!

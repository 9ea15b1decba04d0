//! Plain integer 3D points.
//!
//! Positions are carried as fixed-point integer coordinates (the unit is the
//! caller's choice), so that the camera arithmetic can be stated and checked
//! exactly.

use vstd::prelude::*;

verus! {

/// A point in 3D space with integer coordinates.
#[derive(Clone, Copy, Debug, PartialEq, Eq)]
pub struct Pos {
    pub x: i64,
    pub y: i64,
    pub z: i64,
}

impl Pos {
    /// Builds the point `(x, y, z)`.
    pub fn new(x: i64, y: i64, z: i64) -> (r: Pos)
        ensures
            r.x == x,
            r.y == y,
            r.z == z,
    {
        Pos { x, y, z }
    }
}

} // verus!

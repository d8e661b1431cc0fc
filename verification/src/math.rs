//! Exact three-component vectors, held in thousandths of the base unit.

use vstd::prelude::*;

verus! {

/// A vector of three signed fixed-point coordinates, each in thousandths
/// (a length of `1000` is one metre; an inertia of `500` is 0.5).
#[derive(Clone, Copy, Debug, PartialEq, Eq, Structural)]
pub struct Vec3Milli {
    pub x: i32,
    pub y: i32,
    pub z: i32,
}

/// The vector with the given coordinates, as a spec value.
pub open spec fn v3(x: i32, y: i32, z: i32) -> Vec3Milli {
    Vec3Milli { x, y, z }
}

/// The vector with the given mathematical coordinates, each of which must
/// fit in a signed 32-bit component.
pub open spec fn v3i(x: int, y: int, z: int) -> Vec3Milli {
    Vec3Milli { x: x as i32, y: y as i32, z: z as i32 }
}

impl Vec3Milli {
    pub fn new(x: i32, y: i32, z: i32) -> (r: Vec3Milli)
        ensures
            r == v3(x, y, z),
    {
        Vec3Milli { x, y, z }
    }

    /// The origin.
    pub fn zero() -> (r: Vec3Milli)
        ensures
            r == v3(0, 0, 0),
    {
        Vec3Milli { x: 0, y: 0, z: 0 }
    }

    /// The unit vector along the vertical axis, one metre long.
    pub fn unit_y() -> (r: Vec3Milli)
        ensures
            r == v3(0, 1000, 0),
    {
        Vec3Milli { x: 0, y: 1000, z: 0 }
    }
}

} // verus!

//! Display data for the scene: box meshes derived from half-extents, and
//! colours in thousandths per channel.

use vstd::prelude::*;

use crate::humanoid::{size_wf, BodySize};

verus! {

/// An RGBA colour, each channel in thousandths (`500` is 0.5).
#[derive(Clone, Copy, Debug, PartialEq, Eq, Structural)]
pub struct ColorRgba {
    pub red: u32,
    pub green: u32,
    pub blue: u32,
    pub alpha: u32,
}

/// An axis-aligned box given by its extents on each axis, in thousandths
/// of the base length unit.
#[derive(Clone, Copy, Debug, PartialEq, Eq, Structural)]
pub struct MeshBox {
    pub max_x: i32,
    pub min_x: i32,
    pub max_y: i32,
    pub min_y: i32,
    pub max_z: i32,
    pub min_z: i32,
}

impl MeshBox {
    /// The box centred on the origin whose extents are the given
    /// half-extents on each side.
    pub fn from_halfsize(hs: &BodySize) -> (r: MeshBox)
        requires
            size_wf(*hs),
        ensures
            r.max_x == hs.hw as int && r.min_x == -(hs.hw as int),
            r.max_y == hs.hh as int && r.min_y == -(hs.hh as int),
            r.max_z == hs.hl as int && r.min_z == -(hs.hl as int),
    {
        MeshBox {
            max_x: hs.hw as i32,
            min_x: -(hs.hw as i32),
            max_y: hs.hh as i32,
            min_y: -(hs.hh as i32),
            max_z: hs.hl as i32,
            min_z: -(hs.hl as i32),
        }
    }
}

} // verus!

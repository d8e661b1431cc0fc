//! The ground: a fixed heightfield of constant height under a box mesh,
//! colliding with everything.

use vstd::prelude::*;

use crate::groups::InteractionGroups;
use crate::math::{v3, Vec3Milli};
use crate::mesh::ColorRgba;

verus! {

/// Collision-group bit of static scenery.
pub const STATIC_GROUP: u32 = 0b010;

/// The collision groups of the ground: member of the static group,
/// touching every group.
pub open spec fn static_groups() -> InteractionGroups {
    InteractionGroups { memberships: STATIC_GROUP, filters: 0xFFFF_FFFF }
}

/// The ground: a heightfield of `num_rows` by `num_cols` samples, all at
/// the same height, stretched over `field_size`, drawn as a box of
/// `half_extents`, a fixed body with its own collision groups, friction
/// and restitution.
pub struct GroundConfig {
    pub num_rows: usize,
    pub num_cols: usize,
    pub half_extents: Vec3Milli,
    pub field_size: Vec3Milli,
    pub heights: Vec<u32>,
    pub color: ColorRgba,
    pub groups: InteractionGroups,
    pub friction: u32,
    pub restitution: u32,
}

/// Builds the ground: a thirty-by-twenty grid of samples at height one
/// half, spanning 112 by 168 units, half a unit thick, green, fully
/// frictioned and without bounce.
pub fn ground_start_system() -> (r: GroundConfig)
    ensures
        r.num_rows == 30,
        r.num_cols == 20,
        r.half_extents == v3(56000, 500, 84000),
        r.field_size == v3(112000, 1000, 168000),
        r.heights@.len() == r.num_rows * r.num_cols,
        forall|i: int| 0 <= i < r.heights@.len() ==> r.heights@[i] == 500,
        r.color == (ColorRgba { red: 200, green: 500, blue: 200, alpha: 1000 }),
        r.groups == static_groups(),
        r.friction == 1000,
        r.restitution == 0,
{
    let multiplier: usize = 10;
    let scale: u32 = 28000 / (multiplier as u32);
    let num_cols: usize = 2 * multiplier;
    let num_rows: usize = 3 * multiplier;
    let nc: i32 = num_cols as i32;
    let nr: i32 = num_rows as i32;
    let sc: i32 = scale as i32;
    assert(nc * sc == 56000) by (nonlinear_arith)
        requires
            nc == 20,
            sc == 2800,
    ;
    assert(nr * sc == 84000) by (nonlinear_arith)
        requires
            nr == 30,
            sc == 2800,
    ;
    let hx: i32 = nc * sc;
    let hy: i32 = 500;
    let hz: i32 = nr * sc;
    let half_extents = Vec3Milli::new(hx, hy, hz);
    let field_size = Vec3Milli::new(2 * hx, 2 * hy, 2 * hz);
    let n: usize = num_rows * num_cols;
    let mut heights: Vec<u32> = Vec::new();
    let mut i: usize = 0;
    while i < n
        invariant
            i <= n,
            n == 600,
            heights@.len() == i,
            forall|k: int| 0 <= k < i ==> heights@[k] == 500,
        decreases n - i,
    {
        heights.push(500);
        i = i + 1;
    }
    GroundConfig {
        num_rows,
        num_cols,
        half_extents,
        field_size,
        heights,
        color: ColorRgba { red: 200, green: 500, blue: 200, alpha: 1000 },
        groups: InteractionGroups::new(STATIC_GROUP, u32::MAX),
        friction: 1000,
        restitution: 0,
    }
}

} // verus!

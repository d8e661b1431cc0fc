//! Collision-group bitmasks: which colliders may touch which.

use vstd::prelude::*;

verus! {

/// A pair of 32-bit masks in the style of a physics engine's interaction
/// groups: `memberships` says which groups a collider belongs to, `filters`
/// says which groups it accepts contacts with.
#[derive(Clone, Copy, Debug, PartialEq, Eq, Structural)]
pub struct InteractionGroups {
    pub memberships: u32,
    pub filters: u32,
}

/// Two colliders are tested for contact only when each one's memberships
/// intersect the other's filters.
pub open spec fn pair_enabled(a: InteractionGroups, b: InteractionGroups) -> bool {
    a.memberships & b.filters != 0 && b.memberships & a.filters != 0
}

impl InteractionGroups {
    pub fn new(memberships: u32, filters: u32) -> (r: InteractionGroups)
        ensures
            r.memberships == memberships,
            r.filters == filters,
    {
        InteractionGroups { memberships, filters }
    }
}

/// Decides whether the engine will consider contacts between two colliders,
/// given their groups.
pub fn can_collide(a: InteractionGroups, b: InteractionGroups) -> (r: bool)
    ensures
        r == pair_enabled(a, b),
{
    (a.memberships & b.filters != 0) && (b.memberships & a.filters != 0)
}

} // verus!

//! Six-degree-of-freedom joint descriptions: an axes bitmask saying which
//! relative degrees of freedom between two bodies are locked, local frame
//! axes and local anchor points on both bodies.

use vstd::prelude::*;

use crate::math::{v3, Vec3Milli};

verus! {

/// Bit for the relative translation along X.
pub const AXIS_X: u8 = 0b000001;

/// Bit for the relative translation along Y.
pub const AXIS_Y: u8 = 0b000010;

/// Bit for the relative translation along Z.
pub const AXIS_Z: u8 = 0b000100;

/// Bit for the relative rotation about X.
pub const AXIS_ANG_X: u8 = 0b001000;

/// Bit for the relative rotation about Y.
pub const AXIS_ANG_Y: u8 = 0b010000;

/// Bit for the relative rotation about Z.
pub const AXIS_ANG_Z: u8 = 0b100000;

/// The mask of a fixed joint: all three translations and all three
/// rotations locked.
pub const LOCKED_FIXED_AXES: u8 = 0b111111;

/// Whether `mask` locks the degree of freedom whose bit is `axis`.
pub open spec fn locks(mask: u8, axis: u8) -> bool {
    mask & axis == axis
}

/// The fixed-joint mask is exactly the union of the six axis bits, and it
/// locks each of them.
pub proof fn lemma_fixed_mask_locks_all_axes()
    ensures
        LOCKED_FIXED_AXES == AXIS_X | AXIS_Y | AXIS_Z | AXIS_ANG_X | AXIS_ANG_Y | AXIS_ANG_Z,
        locks(LOCKED_FIXED_AXES, AXIS_X),
        locks(LOCKED_FIXED_AXES, AXIS_Y),
        locks(LOCKED_FIXED_AXES, AXIS_Z),
        locks(LOCKED_FIXED_AXES, AXIS_ANG_X),
        locks(LOCKED_FIXED_AXES, AXIS_ANG_Y),
        locks(LOCKED_FIXED_AXES, AXIS_ANG_Z),
{
    assert(0b111111u8 == 0b000001u8 | 0b000010u8 | 0b000100u8 | 0b001000u8 | 0b010000u8
        | 0b100000u8) by (bit_vector);
    assert(0b111111u8 & 0b000001u8 == 0b000001u8) by (bit_vector);
    assert(0b111111u8 & 0b000010u8 == 0b000010u8) by (bit_vector);
    assert(0b111111u8 & 0b000100u8 == 0b000100u8) by (bit_vector);
    assert(0b111111u8 & 0b001000u8 == 0b001000u8) by (bit_vector);
    assert(0b111111u8 & 0b010000u8 == 0b010000u8) by (bit_vector);
    assert(0b111111u8 & 0b100000u8 == 0b100000u8) by (bit_vector);
}

/// A generic joint between a parent body and a child body: which axes are
/// locked, the joint frame's principal axis on each body, and the anchor
/// point on each body, in that body's local coordinates.
#[derive(Clone, Copy, Debug, PartialEq, Eq, Structural)]
pub struct GenericJoint {
    pub locked_axes: u8,
    pub local_axis1: Vec3Milli,
    pub local_axis2: Vec3Milli,
    pub local_anchor1: Vec3Milli,
    pub local_anchor2: Vec3Milli,
}

/// Builds a `GenericJoint` field by field, starting from a locked-axes mask.
#[derive(Clone, Copy, Debug, PartialEq, Eq, Structural)]
pub struct GenericJointBuilder {
    pub joint: GenericJoint,
}

impl GenericJointBuilder {
    /// A builder whose joint locks exactly the axes of `mask`, with axes and
    /// anchors at their defaults.
    pub fn new(mask: u8) -> (r: GenericJointBuilder)
        ensures
            r.joint.locked_axes == mask,
            r.joint.local_axis1 == v3(0, 0, 0),
            r.joint.local_axis2 == v3(0, 0, 0),
            r.joint.local_anchor1 == v3(0, 0, 0),
            r.joint.local_anchor2 == v3(0, 0, 0),
    {
        GenericJointBuilder {
            joint: GenericJoint {
                locked_axes: mask,
                local_axis1: Vec3Milli { x: 0, y: 0, z: 0 },
                local_axis2: Vec3Milli { x: 0, y: 0, z: 0 },
                local_anchor1: Vec3Milli { x: 0, y: 0, z: 0 },
                local_anchor2: Vec3Milli { x: 0, y: 0, z: 0 },
            },
        }
    }

    /// Sets the joint frame's principal axis on the parent body.
    pub fn local_axis1(self, axis: Vec3Milli) -> (r: GenericJointBuilder)
        ensures
            r.joint == (GenericJoint { local_axis1: axis, ..self.joint }),
    {
        GenericJointBuilder { joint: GenericJoint { local_axis1: axis, ..self.joint } }
    }

    /// Sets the joint frame's principal axis on the child body.
    pub fn local_axis2(self, axis: Vec3Milli) -> (r: GenericJointBuilder)
        ensures
            r.joint == (GenericJoint { local_axis2: axis, ..self.joint }),
    {
        GenericJointBuilder { joint: GenericJoint { local_axis2: axis, ..self.joint } }
    }

    /// Sets the anchor point in the parent body's local coordinates.
    pub fn local_anchor1(self, anchor: Vec3Milli) -> (r: GenericJointBuilder)
        ensures
            r.joint == (GenericJoint { local_anchor1: anchor, ..self.joint }),
    {
        GenericJointBuilder { joint: GenericJoint { local_anchor1: anchor, ..self.joint } }
    }

    /// Sets the anchor point in the child body's local coordinates.
    pub fn local_anchor2(self, anchor: Vec3Milli) -> (r: GenericJointBuilder)
        ensures
            r.joint == (GenericJoint { local_anchor2: anchor, ..self.joint }),
    {
        GenericJointBuilder { joint: GenericJoint { local_anchor2: anchor, ..self.joint } }
    }

    /// The finished joint.
    pub fn build(self) -> (r: GenericJoint)
        ensures
            r == self.joint,
    {
        self.joint
    }
}

/// A joint binding a segment to a parent segment, named by the parent's
/// position in the plan's segment list.
#[derive(Clone, Copy, Debug, PartialEq, Eq, Structural)]
pub struct ImpulseJoint {
    pub parent: usize,
    pub data: GenericJoint,
}

impl ImpulseJoint {
    pub fn new(parent: usize, data: GenericJoint) -> (r: ImpulseJoint)
        ensures
            r.parent == parent,
            r.data == data,
    {
        ImpulseJoint { parent, data }
    }
}

} // verus!

//! The humanoid: thirteen rigid segments (a trunk and six left/right limb
//! pairs) joined into a tree by fixed six-axis joints, with the exact
//! dimensions, masses, inertias, colours and collision groups of each
//! segment stated in the contracts.

use vstd::prelude::*;

use crate::ground::STATIC_GROUP;
use crate::groups::{pair_enabled, InteractionGroups};
use crate::joints::{GenericJointBuilder, ImpulseJoint, LOCKED_FIXED_AXES};
use crate::math::{v3, v3i, Vec3Milli};
use crate::mesh::ColorRgba;

verus! {

/// Collision-group bit of the humanoid's colliders.
pub const HUMANOID_TRAINING_GROUP: u32 = 0b001;

/// The half-extents of a segment's box (half width, half height, half
/// length) and the border radius of its rounded collider, in thousandths.
#[derive(Clone, Copy, Debug, PartialEq, Eq, Structural)]
pub struct BodySize {
    pub hw: u32,
    pub hh: u32,
    pub hl: u32,
    pub br: u32,
}

/// A usable size: the border radius is positive and no larger than any
/// half-extent (so the rounded collider has no negative core extent), and
/// every half-extent fits comfortably in a signed component.
pub open spec fn size_wf(s: BodySize) -> bool {
    &&& 0 < s.br
    &&& s.br <= s.hw
    &&& s.br <= s.hh
    &&& s.br <= s.hl
    &&& s.hw <= 1000000
    &&& s.hh <= 1000000
    &&& s.hl <= 1000000
}

/// The trunk's half-extents: 0.2 by 0.3 by 0.1, border 0.05.
pub open spec fn body_size() -> BodySize {
    BodySize { hw: 200, hh: 300, hl: 100, br: 50 }
}

/// The thigh's half-extents: 0.05 by 0.2 by 0.05, border 0.02.
pub open spec fn femur_size() -> BodySize {
    BodySize { hw: 50, hh: 200, hl: 50, br: 20 }
}

/// The shin's half-extents: 0.04 by 0.2 by 0.04, border 0.02.
pub open spec fn tibia_size() -> BodySize {
    BodySize { hw: 40, hh: 200, hl: 40, br: 20 }
}

/// The foot's half-extents: 0.04 by 0.02 by 0.1, border 0.01.
pub open spec fn foot_size() -> BodySize {
    BodySize { hw: 40, hh: 20, hl: 100, br: 10 }
}

/// The upper arm's half-extents: 0.04 by 0.15 by 0.04, border 0.02.
pub open spec fn upperarm_size() -> BodySize {
    BodySize { hw: 40, hh: 150, hl: 40, br: 20 }
}

/// The forearm's half-extents: 0.03 by 0.15 by 0.03, border 0.02.
pub open spec fn forearm_size() -> BodySize {
    BodySize { hw: 30, hh: 150, hl: 30, br: 20 }
}

/// The palm's half-extents: 0.04 by 0.1 by 0.01, border 0.01.
pub open spec fn palm_size() -> BodySize {
    BodySize { hw: 40, hh: 100, hl: 10, br: 10 }
}

impl BodySize {
    pub fn body() -> (r: BodySize)
        ensures
            r == body_size(),
            size_wf(r),
    {
        BodySize { hw: 200, hh: 300, hl: 100, br: 50 }
    }

    pub fn femur() -> (r: BodySize)
        ensures
            r == femur_size(),
            size_wf(r),
    {
        BodySize { hw: 50, hh: 200, hl: 50, br: 20 }
    }

    pub fn tibia() -> (r: BodySize)
        ensures
            r == tibia_size(),
            size_wf(r),
    {
        BodySize { hw: 40, hh: 200, hl: 40, br: 20 }
    }

    pub fn foot() -> (r: BodySize)
        ensures
            r == foot_size(),
            size_wf(r),
    {
        BodySize { hw: 40, hh: 20, hl: 100, br: 10 }
    }

    pub fn upperarm() -> (r: BodySize)
        ensures
            r == upperarm_size(),
            size_wf(r),
    {
        BodySize { hw: 40, hh: 150, hl: 40, br: 20 }
    }

    pub fn forearm() -> (r: BodySize)
        ensures
            r == forearm_size(),
            size_wf(r),
    {
        BodySize { hw: 30, hh: 150, hl: 30, br: 20 }
    }

    pub fn palm() -> (r: BodySize)
        ensures
            r == palm_size(),
            size_wf(r),
    {
        BodySize { hw: 40, hh: 100, hl: 10, br: 10 }
    }
}

/// A box collider with rounded borders: the half-extents of the inner core
/// box and the border radius added around it.
#[derive(Clone, Copy, Debug, PartialEq, Eq, Structural)]
pub struct RoundCuboid {
    pub hx: u32,
    pub hy: u32,
    pub hz: u32,
    pub radius: u32,
}

/// The rounded collider of a segment of size `s`: the border radius is
/// carved out of each half-extent and added back as the rounding, so the
/// outer surface keeps the stated half-extents.
pub open spec fn collider_of(s: BodySize) -> RoundCuboid
    recommends
        size_wf(s),
{
    RoundCuboid {
        hx: (s.hw - s.br) as u32,
        hy: (s.hh - s.br) as u32,
        hz: (s.hl - s.br) as u32,
        radius: s.br,
    }
}

/// The rounded box collider for a segment of the given size.
pub fn get_collider(size: &BodySize) -> (r: RoundCuboid)
    requires
        size_wf(*size),
    ensures
        r == collider_of(*size),
{
    RoundCuboid {
        hx: size.hw - size.br,
        hy: size.hh - size.br,
        hz: size.hl - size.br,
        radius: size.br,
    }
}

/// Which body part a segment is.
#[derive(Clone, Copy, Debug, PartialEq, Eq, Structural)]
pub enum SegmentKind {
    Body,
    Femur,
    Tibia,
    Foot,
    UpperArm,
    Forearm,
    Palm,
}

impl SegmentKind {
    /// The name under which a segment of this kind is registered in the
    /// scene.
    pub fn label(&self) -> (r: &'static str)
        ensures
            *self == SegmentKind::Body ==> r@ == "body"@,
            *self == SegmentKind::Femur ==> r@ == "femur"@,
            *self == SegmentKind::Tibia ==> r@ == "tibia"@,
            *self == SegmentKind::Foot ==> r@ == "foot"@,
            *self == SegmentKind::UpperArm ==> r@ == "upperarm"@,
            *self == SegmentKind::Forearm ==> r@ == "forearm"@,
            *self == SegmentKind::Palm ==> r@ == "palm"@,
    {
        match self {
            SegmentKind::Body => "body",
            SegmentKind::Femur => "femur",
            SegmentKind::Tibia => "tibia",
            SegmentKind::Foot => "foot",
            SegmentKind::UpperArm => "upperarm",
            SegmentKind::Forearm => "forearm",
            SegmentKind::Palm => "palm",
        }
    }
}

/// Which side of the body a limb segment is on. The first spawned limb of
/// each pair sits on the positive X side and is called left here.
#[derive(Clone, Copy, Debug, PartialEq, Eq, Structural)]
pub enum Side {
    Left,
    Right,
}

/// The sign of the X offset of a limb on this side.
pub open spec fn side_sign(s: Side) -> int {
    match s {
        Side::Left => 1,
        Side::Right => -1,
    }
}

/// Velocity damping factors, in thousandths.
#[derive(Clone, Copy, Debug, PartialEq, Eq, Structural)]
pub struct Damping {
    pub linear: u32,
    pub angular: u32,
}

/// One rigid segment of the humanoid: its display box and colour, its
/// rounded collider with mass properties and collision groups, and the
/// joint binding it to its parent segment (absent on the root).
#[derive(Clone, Copy, Debug)]
pub struct Segment {
    pub kind: SegmentKind,
    pub side: Option<Side>,
    pub translation: Vec3Milli,
    pub mesh_size: BodySize,
    pub color: ColorRgba,
    pub size: BodySize,
    pub collider: RoundCuboid,
    pub groups: InteractionGroups,
    pub friction: u32,
    pub restitution: u32,
    pub contact_force_threshold: u32,
    pub mass: u32,
    pub principal_inertia: Vec3Milli,
    pub damping: Option<Damping>,
    pub ccd_enabled: bool,
    pub joint: Option<ImpulseJoint>,
}

/// The whole articulated humanoid: its segments in spawn order, the root
/// (trunk) first, each later segment jointed to an earlier one.
pub struct HumanoidPlan {
    pub segments: Vec<Segment>,
}

/// The collision groups of every humanoid collider: member of the humanoid
/// group, touching only the static group.
pub open spec fn humanoid_groups() -> InteractionGroups {
    InteractionGroups { memberships: HUMANOID_TRAINING_GROUP, filters: STATIC_GROUP }
}

/// The trunk's colour.
pub open spec fn body_color() -> ColorRgba {
    ColorRgba { red: 300, green: 200, blue: 200, alpha: 500 }
}

/// The colour of thighs and upper arms.
pub open spec fn femur_color() -> ColorRgba {
    ColorRgba { red: 200, green: 300, blue: 200, alpha: 500 }
}

/// The colour of shins and forearms.
pub open spec fn tibia_color() -> ColorRgba {
    ColorRgba { red: 200, green: 200, blue: 300, alpha: 500 }
}

/// The colour of feet and palms.
pub open spec fn foot_color() -> ColorRgba {
    ColorRgba { red: 200, green: 200, blue: 200, alpha: 500 }
}

/// What holds of every segment regardless of kind: a usable size, the
/// collider carved from that size, humanoid collision groups, friction
/// one half, no restitution, the contact-force report threshold, and
/// continuous collision detection switched on.
pub open spec fn segment_wf(s: Segment) -> bool {
    &&& size_wf(s.size)
    &&& s.collider == collider_of(s.size)
    &&& s.groups == humanoid_groups()
    &&& s.friction == 500
    &&& s.restitution == 0
    &&& s.contact_force_threshold == 100
    &&& s.ccd_enabled
}

/// A segment's joint binds it to the given parent, locks all six degrees
/// of freedom, aligns both local frames with the vertical axis, and uses
/// the given anchor points on parent and child.
pub open spec fn joint_row(
    s: Segment,
    parent: int,
    anchor1: Vec3Milli,
    anchor2: Vec3Milli,
) -> bool {
    s.joint matches Some(j) && {
        &&& j.parent == parent
        &&& j.data.locked_axes == LOCKED_FIXED_AXES
        &&& j.data.local_axis1 == v3(0, 1000, 0)
        &&& j.data.local_axis2 == v3(0, 1000, 0)
        &&& j.data.local_anchor1 == anchor1
        &&& j.data.local_anchor2 == anchor2
    }
}

/// The trunk: the root segment, twenty kilograms, no joint.
pub open spec fn body_row(s: Segment) -> bool {
    &&& s.kind == SegmentKind::Body
    &&& s.side is None
    &&& s.size == body_size()
    &&& s.mesh_size == body_size()
    &&& s.color == body_color()
    &&& s.mass == 20000
    &&& s.principal_inertia == v3(5000, 2000, 5000)
    &&& s.damping == Some(Damping { linear: 50, angular: 50 })
    &&& s.joint is None
}

/// A thigh: hung from the trunk at the hip, a tenth of a unit to the side
/// of the trunk's centre and at the trunk's lower face, by its top end.
pub open spec fn femur_row(s: Segment, side: Side) -> bool {
    &&& s.kind == SegmentKind::Femur
    &&& s.side == Some(side)
    &&& s.size == femur_size()
    &&& s.mesh_size == femur_size()
    &&& s.color == femur_color()
    &&& s.mass == 5000
    &&& s.principal_inertia == v3(500, 200, 500)
    &&& s.damping is None
    &&& joint_row(
        s,
        0,
        v3i(100 * side_sign(side), -(body_size().hh as int), 0),
        v3i(0, femur_size().hh as int, 0),
    )
}

/// A shin: hung from the bottom end of the thigh on its side, by its top
/// end.
pub open spec fn tibia_row(s: Segment, side: Side, parent: int) -> bool {
    &&& s.kind == SegmentKind::Tibia
    &&& s.side == Some(side)
    &&& s.size == tibia_size()
    &&& s.mesh_size == tibia_size()
    &&& s.color == tibia_color()
    &&& s.mass == 5000
    &&& s.principal_inertia == v3(500, 200, 500)
    &&& s.damping is None
    &&& joint_row(
        s,
        parent,
        v3i(0, -(femur_size().hh as int), 0),
        v3i(0, tibia_size().hh as int, 0),
    )
}

/// A foot: hung from the bottom end of the shin on its side, by its top
/// face, shifted backwards so the ankle sits over the heel rather than the
/// foot's centre.
pub open spec fn foot_row(s: Segment, side: Side, parent: int) -> bool {
    &&& s.kind == SegmentKind::Foot
    &&& s.side == Some(side)
    &&& s.size == foot_size()
    &&& s.mesh_size == foot_size()
    &&& s.color == foot_color()
    &&& s.mass == 1000
    &&& s.principal_inertia == v3(100, 100, 100)
    &&& s.damping is None
    &&& joint_row(
        s,
        parent,
        v3i(0, -(tibia_size().hh as int), 0),
        v3i(0, foot_size().hh as int, foot_size().hl - tibia_size().hl),
    )
}

/// An upper arm: hung from the trunk at the shoulder, at the trunk's upper
/// corner on its side. Its collider has the upper arm's size, but its
/// display box and its anchor height reuse the thigh's half-extents.
pub open spec fn upperarm_row(s: Segment, side: Side) -> bool {
    &&& s.kind == SegmentKind::UpperArm
    &&& s.side == Some(side)
    &&& s.size == upperarm_size()
    &&& s.mesh_size == femur_size()
    &&& s.color == femur_color()
    &&& s.mass == 5000
    &&& s.principal_inertia == v3(500, 200, 500)
    &&& s.damping is None
    &&& joint_row(
        s,
        0,
        v3i(body_size().hw as int * side_sign(side), body_size().hh as int, 0),
        v3i(0, femur_size().hh as int, 0),
    )
}

/// A forearm: hung from the bottom end of the upper arm on its side, by
/// its top end.
pub open spec fn forearm_row(s: Segment, side: Side, parent: int) -> bool {
    &&& s.kind == SegmentKind::Forearm
    &&& s.side == Some(side)
    &&& s.size == forearm_size()
    &&& s.mesh_size == forearm_size()
    &&& s.color == tibia_color()
    &&& s.mass == 5000
    &&& s.principal_inertia == v3(500, 200, 500)
    &&& s.damping is None
    &&& joint_row(
        s,
        parent,
        v3i(0, -(upperarm_size().hh as int), 0),
        v3i(0, forearm_size().hh as int, 0),
    )
}

/// A palm: hung from the bottom end of the forearm on its side, by its top
/// end.
pub open spec fn palm_row(s: Segment, side: Side, parent: int) -> bool {
    &&& s.kind == SegmentKind::Palm
    &&& s.side == Some(side)
    &&& s.size == palm_size()
    &&& s.mesh_size == palm_size()
    &&& s.color == foot_color()
    &&& s.mass == 1000
    &&& s.principal_inertia == v3(100, 100, 100)
    &&& s.damping is None
    &&& joint_row(
        s,
        parent,
        v3i(0, -(forearm_size().hh as int), 0),
        v3i(0, palm_size().hh as int, 0),
    )
}

/// The structural laws of a humanoid plan: thirteen well-formed segments,
/// a jointless root, and every later segment bound to an earlier one by a
/// joint that locks all six axes and aligns both frames vertically.
pub open spec fn plan_wf(p: HumanoidPlan) -> bool {
    &&& p.segments@.len() == 13
    &&& forall|i: int| 0 <= i < 13 ==> segment_wf(#[trigger] p.segments@[i])
    &&& p.segments@[0].joint is None
    &&& forall|i: int|
        1 <= i < 13 ==> ((#[trigger] p.segments@[i]).joint matches Some(j) && {
            &&& j.parent < i
            &&& j.data.locked_axes == LOCKED_FIXED_AXES
            &&& j.data.local_axis1 == v3(0, 1000, 0)
            &&& j.data.local_axis2 == v3(0, 1000, 0)
        })
}

/// The full table of the humanoid spawned at `t`: the structural laws, one
/// translation shared by every segment, and each segment's exact row, with
/// the two thighs and two upper arms on the trunk and each limb chained
/// down its own side.
pub open spec fn humanoid_rows(p: HumanoidPlan, t: Vec3Milli) -> bool {
    &&& plan_wf(p)
    &&& forall|i: int| 0 <= i < 13 ==> (#[trigger] p.segments@[i]).translation == t
    &&& body_row(p.segments@[0])
    &&& femur_row(p.segments@[1], Side::Left)
    &&& femur_row(p.segments@[2], Side::Right)
    &&& tibia_row(p.segments@[3], Side::Left, 1)
    &&& tibia_row(p.segments@[4], Side::Right, 2)
    &&& foot_row(p.segments@[5], Side::Left, 3)
    &&& foot_row(p.segments@[6], Side::Right, 4)
    &&& upperarm_row(p.segments@[7], Side::Left)
    &&& upperarm_row(p.segments@[8], Side::Right)
    &&& forearm_row(p.segments@[9], Side::Left, 7)
    &&& forearm_row(p.segments@[10], Side::Right, 8)
    &&& palm_row(p.segments@[11], Side::Left, 9)
    &&& palm_row(p.segments@[12], Side::Right, 10)
}

/// A segment with everything that all segments share filled in: the
/// collider carved from `size`, humanoid collision groups, friction one
/// half, no restitution, the contact-force threshold, and continuous
/// collision detection on.
fn make_segment(
    kind: SegmentKind,
    side: Option<Side>,
    translation: Vec3Milli,
    mesh_size: BodySize,
    color: ColorRgba,
    size: BodySize,
    mass: u32,
    principal_inertia: Vec3Milli,
    damping: Option<Damping>,
    joint: Option<ImpulseJoint>,
) -> (r: Segment)
    requires
        size_wf(size),
    ensures
        segment_wf(r),
        r.kind == kind,
        r.side == side,
        r.translation == translation,
        r.mesh_size == mesh_size,
        r.color == color,
        r.size == size,
        r.mass == mass,
        r.principal_inertia == principal_inertia,
        r.damping == damping,
        r.joint == joint,
{
    let collider = get_collider(&size);
    Segment {
        kind,
        side,
        translation,
        mesh_size,
        color,
        size,
        collider,
        groups: InteractionGroups::new(HUMANOID_TRAINING_GROUP, STATIC_GROUP),
        friction: 500,
        restitution: 0,
        contact_force_threshold: 100,
        mass,
        principal_inertia,
        damping,
        ccd_enabled: true,
        joint,
    }
}

/// A joint that locks all six axes, aligns both local frames with the
/// vertical axis and anchors the two bodies at the given local points.
fn make_fixed_joint(parent: usize, anchor1: Vec3Milli, anchor2: Vec3Milli) -> (r: ImpulseJoint)
    ensures
        r.parent == parent,
        r.data.locked_axes == LOCKED_FIXED_AXES,
        r.data.local_axis1 == v3(0, 1000, 0),
        r.data.local_axis2 == v3(0, 1000, 0),
        r.data.local_anchor1 == anchor1,
        r.data.local_anchor2 == anchor2,
{
    ImpulseJoint::new(
        parent,
        GenericJointBuilder::new(LOCKED_FIXED_AXES)
            .local_axis1(Vec3Milli::unit_y())
            .local_axis2(Vec3Milli::unit_y())
            .local_anchor1(anchor1)
            .local_anchor2(anchor2)
            .build(),
    )
}

/// The trunk segment.
fn body_segment(translation: Vec3Milli) -> (r: Segment)
    ensures
        segment_wf(r),
        body_row(r),
        r.translation == translation,
{
    let size = BodySize::body();
    make_segment(
        SegmentKind::Body,
        None,
        translation,
        size,
        ColorRgba { red: 300, green: 200, blue: 200, alpha: 500 },
        size,
        20000,
        Vec3Milli::new(5000, 2000, 5000),
        Some(Damping { linear: 50, angular: 50 }),
        None,
    )
}

/// A thigh segment on the given side, jointed to the trunk.
fn femur_segment(translation: Vec3Milli, side: Side) -> (r: Segment)
    ensures
        segment_wf(r),
        femur_row(r, side),
        r.translation == translation,
{
    let size = BodySize::femur();
    let hip_x: i32 = match side {
        Side::Left => 100,
        Side::Right => -100,
    };
    let joint = make_fixed_joint(
        0,
        Vec3Milli::new(hip_x, -300, 0),
        Vec3Milli::new(0, 200, 0),
    );
    make_segment(
        SegmentKind::Femur,
        Some(side),
        translation,
        size,
        ColorRgba { red: 200, green: 300, blue: 200, alpha: 500 },
        size,
        5000,
        Vec3Milli::new(500, 200, 500),
        None,
        Some(joint),
    )
}

/// A shin segment on the given side, jointed to the thigh at `parent`.
fn tibia_segment(translation: Vec3Milli, side: Side, parent: usize) -> (r: Segment)
    ensures
        segment_wf(r),
        tibia_row(r, side, parent as int),
        r.translation == translation,
{
    let size = BodySize::tibia();
    let joint = make_fixed_joint(
        parent,
        Vec3Milli::new(0, -200, 0),
        Vec3Milli::new(0, 200, 0),
    );
    make_segment(
        SegmentKind::Tibia,
        Some(side),
        translation,
        size,
        ColorRgba { red: 200, green: 200, blue: 300, alpha: 500 },
        size,
        5000,
        Vec3Milli::new(500, 200, 500),
        None,
        Some(joint),
    )
}

/// A foot segment on the given side, jointed to the shin at `parent`.
fn foot_segment(translation: Vec3Milli, side: Side, parent: usize) -> (r: Segment)
    ensures
        segment_wf(r),
        foot_row(r, side, parent as int),
        r.translation == translation,
{
    let size = BodySize::foot();
    let joint = make_fixed_joint(
        parent,
        Vec3Milli::new(0, -200, 0),
        Vec3Milli::new(0, 20, 60),
    );
    make_segment(
        SegmentKind::Foot,
        Some(side),
        translation,
        size,
        ColorRgba { red: 200, green: 200, blue: 200, alpha: 500 },
        size,
        1000,
        Vec3Milli::new(100, 100, 100),
        None,
        Some(joint),
    )
}

/// An upper-arm segment on the given side, jointed to the trunk. Its
/// display box and anchor height reuse the thigh's half-extents; only the
/// collider uses the upper arm's own size.
fn upperarm_segment(translation: Vec3Milli, side: Side) -> (r: Segment)
    ensures
        segment_wf(r),
        upperarm_row(r, side),
        r.translation == translation,
{
    let size = BodySize::upperarm();
    let mesh_size = BodySize::femur();
    let shoulder_x: i32 = match side {
        Side::Left => 200,
        Side::Right => -200,
    };
    let joint = make_fixed_joint(
        0,
        Vec3Milli::new(shoulder_x, 300, 0),
        Vec3Milli::new(0, 200, 0),
    );
    make_segment(
        SegmentKind::UpperArm,
        Some(side),
        translation,
        mesh_size,
        ColorRgba { red: 200, green: 300, blue: 200, alpha: 500 },
        size,
        5000,
        Vec3Milli::new(500, 200, 500),
        None,
        Some(joint),
    )
}

/// A forearm segment on the given side, jointed to the upper arm at
/// `parent`.
fn forearm_segment(translation: Vec3Milli, side: Side, parent: usize) -> (r: Segment)
    ensures
        segment_wf(r),
        forearm_row(r, side, parent as int),
        r.translation == translation,
{
    let size = BodySize::forearm();
    let joint = make_fixed_joint(
        parent,
        Vec3Milli::new(0, -150, 0),
        Vec3Milli::new(0, 150, 0),
    );
    make_segment(
        SegmentKind::Forearm,
        Some(side),
        translation,
        size,
        ColorRgba { red: 200, green: 200, blue: 300, alpha: 500 },
        size,
        5000,
        Vec3Milli::new(500, 200, 500),
        None,
        Some(joint),
    )
}

/// A palm segment on the given side, jointed to the forearm at `parent`.
fn palm_segment(translation: Vec3Milli, side: Side, parent: usize) -> (r: Segment)
    ensures
        segment_wf(r),
        palm_row(r, side, parent as int),
        r.translation == translation,
{
    let size = BodySize::palm();
    let joint = make_fixed_joint(
        parent,
        Vec3Milli::new(0, -150, 0),
        Vec3Milli::new(0, 100, 0),
    );
    make_segment(
        SegmentKind::Palm,
        Some(side),
        translation,
        size,
        ColorRgba { red: 200, green: 200, blue: 200, alpha: 500 },
        size,
        1000,
        Vec3Milli::new(100, 100, 100),
        None,
        Some(joint),
    )
}

/// Builds the whole humanoid at the given translation: the trunk first,
/// then for each side a thigh, shin and foot chain and an upper arm,
/// forearm and palm chain, each segment jointed to its parent earlier in
/// the list.
pub fn spawn_humanoid(translation: Vec3Milli) -> (r: HumanoidPlan)
    ensures
        humanoid_rows(r, translation),
{
    let mut segments: Vec<Segment> = Vec::new();
    segments.push(body_segment(translation));
    segments.push(femur_segment(translation, Side::Left));
    segments.push(femur_segment(translation, Side::Right));
    segments.push(tibia_segment(translation, Side::Left, 1));
    segments.push(tibia_segment(translation, Side::Right, 2));
    segments.push(foot_segment(translation, Side::Left, 3));
    segments.push(foot_segment(translation, Side::Right, 4));
    segments.push(upperarm_segment(translation, Side::Left));
    segments.push(upperarm_segment(translation, Side::Right));
    segments.push(forearm_segment(translation, Side::Left, 7));
    segments.push(forearm_segment(translation, Side::Right, 8));
    segments.push(palm_segment(translation, Side::Left, 9));
    segments.push(palm_segment(translation, Side::Right, 10));
    HumanoidPlan { segments }
}

/// Builds the humanoid one unit above the origin, where the startup step
/// places it.
pub fn humanoid_start_system() -> (r: HumanoidPlan)
    ensures
        humanoid_rows(r, v3(0, 1000, 0)),
{
    spawn_humanoid(Vec3Milli::new(0, 1000, 0))
}

/// Humanoid colliders touch the static ground but never one another: the
/// humanoid's memberships intersect the ground's filters and the ground's
/// memberships intersect the humanoid's filters, while two humanoid
/// colliders fail their mutual filter test.
pub proof fn lemma_collision_partition()
    ensures
        pair_enabled(humanoid_groups(), crate::ground::static_groups()),
        !pair_enabled(humanoid_groups(), humanoid_groups()),
{
    assert(0b001u32 & 0xFFFF_FFFFu32 != 0) by (bit_vector);
    assert(0b010u32 & 0b010u32 != 0) by (bit_vector);
    assert(0b001u32 & 0b010u32 == 0) by (bit_vector);
}

/// In a well-formed plan, every segment's collider may touch the ground,
/// and no two of the humanoid's own colliders may touch each other.
pub proof fn lemma_plan_collides_with_ground_only(p: HumanoidPlan, i: int, k: int)
    requires
        plan_wf(p),
        0 <= i < 13,
        0 <= k < 13,
    ensures
        pair_enabled(p.segments@[i].groups, crate::ground::static_groups()),
        !pair_enabled(p.segments@[i].groups, p.segments@[k].groups),
{
    lemma_collision_partition();
}

/// The humanoid is bilaterally symmetric: each limb pair spawns left then
/// right, both sides agree in kind, size, mass and child anchor, and the
/// parent anchor differs only in the sign of its X offset.
pub proof fn lemma_bilateral_symmetry(p: HumanoidPlan, t: Vec3Milli, i: int)
    requires
        humanoid_rows(p, t),
        i == 1 || i == 3 || i == 5 || i == 7 || i == 9 || i == 11,
    ensures
        p.segments@[i].side == Some(Side::Left),
        p.segments@[i + 1].side == Some(Side::Right),
        p.segments@[i].kind == p.segments@[i + 1].kind,
        p.segments@[i].size == p.segments@[i + 1].size,
        p.segments@[i].mass == p.segments@[i + 1].mass,
        p.segments@[i].joint->Some_0.data.local_anchor1.x as int == -(
        p.segments@[i + 1].joint->Some_0.data.local_anchor1.x as int),
        p.segments@[i].joint->Some_0.data.local_anchor1.y == p.segments@[i
            + 1].joint->Some_0.data.local_anchor1.y,
        p.segments@[i].joint->Some_0.data.local_anchor2 == p.segments@[i
            + 1].joint->Some_0.data.local_anchor2,
{
}

/// The mass of the first `n` segments of `s`, in thousandths.
pub open spec fn mass_sum(s: Seq<Segment>, n: int) -> int
    decreases n,
{
    if n <= 0 {
        0
    } else {
        mass_sum(s, n - 1) + s[n - 1].mass
    }
}

/// The humanoid's total mass: the trunk's twenty kilograms plus, per side,
/// a thigh, shin, upper arm and forearm of five kilograms each and a foot
/// and palm of one kilogram each.
pub fn total_mass(p: &HumanoidPlan) -> (r: u64)
    requires
        plan_wf(*p),
    ensures
        r == mass_sum(p.segments@, p.segments@.len() as int),
{
    let mut sum: u64 = 0;
    let mut i: usize = 0;
    while i < p.segments.len()
        invariant
            plan_wf(*p),
            0 <= i <= 13,
            sum == mass_sum(p.segments@, i as int),
            sum <= i * (u32::MAX as u64),
        decreases p.segments@.len() - i,
    {
        sum = sum + p.segments[i].mass as u64;
        i = i + 1;
    }
    sum
}

/// A humanoid built by `spawn_humanoid` weighs exactly 64 kilograms.
pub proof fn lemma_humanoid_total_mass(p: HumanoidPlan, t: Vec3Milli)
    requires
        humanoid_rows(p, t),
    ensures
        mass_sum(p.segments@, 13) == 64000,
{
    reveal_with_fuel(mass_sum, 14);
}

} // verus!

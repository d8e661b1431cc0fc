use ragdoll::ground::{ground_start_system, STATIC_GROUP};
use ragdoll::groups::{can_collide, InteractionGroups};
use ragdoll::humanoid::{
    get_collider, humanoid_start_system, spawn_humanoid, total_mass, BodySize, Damping,
    SegmentKind, Side, HUMANOID_TRAINING_GROUP,
};
use ragdoll::joints::{
    GenericJointBuilder, AXIS_ANG_X, AXIS_ANG_Y, AXIS_ANG_Z, AXIS_X, AXIS_Y, AXIS_Z,
    LOCKED_FIXED_AXES,
};
use ragdoll::math::Vec3Milli;
use ragdoll::mesh::{ColorRgba, MeshBox};
use ragdoll::sim::sim_config;

#[test]
fn body_part_sizes() {
    let b = BodySize::body();
    assert_eq!((b.hw, b.hh, b.hl, b.br), (200, 300, 100, 50));
    let f = BodySize::femur();
    assert_eq!((f.hw, f.hh, f.hl, f.br), (50, 200, 50, 20));
    let t = BodySize::tibia();
    assert_eq!((t.hw, t.hh, t.hl, t.br), (40, 200, 40, 20));
    let ft = BodySize::foot();
    assert_eq!((ft.hw, ft.hh, ft.hl, ft.br), (40, 20, 100, 10));
    let u = BodySize::upperarm();
    assert_eq!((u.hw, u.hh, u.hl, u.br), (40, 150, 40, 20));
    let fa = BodySize::forearm();
    assert_eq!((fa.hw, fa.hh, fa.hl, fa.br), (30, 150, 30, 20));
    let p = BodySize::palm();
    assert_eq!((p.hw, p.hh, p.hl, p.br), (40, 100, 10, 10));
}

#[test]
fn collider_carves_border_from_half_extents() {
    let c = get_collider(&BodySize::body());
    assert_eq!((c.hx, c.hy, c.hz, c.radius), (150, 250, 50, 50));
    let c = get_collider(&BodySize::femur());
    assert_eq!((c.hx, c.hy, c.hz, c.radius), (30, 180, 30, 20));
    // The palm is as thin as its border: its core box is flat.
    let c = get_collider(&BodySize::palm());
    assert_eq!((c.hx, c.hy, c.hz, c.radius), (30, 90, 0, 10));
}

#[test]
fn mesh_box_spans_both_sides() {
    let m = MeshBox::from_halfsize(&BodySize::femur());
    assert_eq!((m.max_x, m.min_x), (50, -50));
    assert_eq!((m.max_y, m.min_y), (200, -200));
    assert_eq!((m.max_z, m.min_z), (50, -50));
}

#[test]
fn collision_groups_partition() {
    let humanoid = InteractionGroups::new(HUMANOID_TRAINING_GROUP, STATIC_GROUP);
    let ground = InteractionGroups::new(STATIC_GROUP, u32::MAX);
    assert!(can_collide(humanoid, ground));
    assert!(can_collide(ground, humanoid));
    assert!(!can_collide(humanoid, humanoid));
    assert!(can_collide(ground, ground));
}

#[test]
fn fixed_joint_mask_locks_all_six_axes() {
    assert_eq!(
        LOCKED_FIXED_AXES,
        AXIS_X | AXIS_Y | AXIS_Z | AXIS_ANG_X | AXIS_ANG_Y | AXIS_ANG_Z
    );
    for axis in [AXIS_X, AXIS_Y, AXIS_Z, AXIS_ANG_X, AXIS_ANG_Y, AXIS_ANG_Z] {
        assert_eq!(LOCKED_FIXED_AXES & axis, axis);
    }
}

#[test]
fn joint_builder_sets_each_field() {
    let j = GenericJointBuilder::new(LOCKED_FIXED_AXES)
        .local_axis1(Vec3Milli::unit_y())
        .local_axis2(Vec3Milli::unit_y())
        .local_anchor1(Vec3Milli::new(1, 2, 3))
        .local_anchor2(Vec3Milli::new(4, 5, 6))
        .build();
    assert_eq!(j.locked_axes, LOCKED_FIXED_AXES);
    assert_eq!(j.local_axis1, Vec3Milli::new(0, 1000, 0));
    assert_eq!(j.local_axis2, Vec3Milli::new(0, 1000, 0));
    assert_eq!(j.local_anchor1, Vec3Milli::new(1, 2, 3));
    assert_eq!(j.local_anchor2, Vec3Milli::new(4, 5, 6));
}

#[test]
fn ground_heightfield() {
    let g = ground_start_system();
    assert_eq!((g.num_rows, g.num_cols), (30, 20));
    assert_eq!(g.half_extents, Vec3Milli::new(56000, 500, 84000));
    assert_eq!(g.field_size, Vec3Milli::new(112000, 1000, 168000));
    assert_eq!(g.heights.len(), 600);
    assert!(g.heights.iter().all(|h| *h == 500));
    assert_eq!(g.color, ColorRgba { red: 200, green: 500, blue: 200, alpha: 1000 });
    assert_eq!(g.groups.memberships, STATIC_GROUP);
    assert_eq!(g.groups.filters, u32::MAX);
    assert_eq!(g.friction, 1000);
    assert_eq!(g.restitution, 0);
}

#[test]
fn humanoid_has_thirteen_segments_in_spawn_order() {
    let p = spawn_humanoid(Vec3Milli::new(0, 1000, 0));
    let kinds: Vec<SegmentKind> = p.segments.iter().map(|s| s.kind).collect();
    assert_eq!(
        kinds,
        vec![
            SegmentKind::Body,
            SegmentKind::Femur,
            SegmentKind::Femur,
            SegmentKind::Tibia,
            SegmentKind::Tibia,
            SegmentKind::Foot,
            SegmentKind::Foot,
            SegmentKind::UpperArm,
            SegmentKind::UpperArm,
            SegmentKind::Forearm,
            SegmentKind::Forearm,
            SegmentKind::Palm,
            SegmentKind::Palm,
        ]
    );
    for (i, s) in p.segments.iter().enumerate() {
        assert_eq!(s.translation, Vec3Milli::new(0, 1000, 0));
        if i == 0 {
            assert_eq!(s.side, None);
        } else if i % 2 == 1 {
            assert_eq!(s.side, Some(Side::Left));
        } else {
            assert_eq!(s.side, Some(Side::Right));
        }
    }
}

#[test]
fn humanoid_joints_form_a_tree() {
    let p = spawn_humanoid(Vec3Milli::zero());
    assert!(p.segments[0].joint.is_none());
    let parents: Vec<usize> = p.segments[1..]
        .iter()
        .map(|s| s.joint.unwrap().parent)
        .collect();
    assert_eq!(parents, vec![0, 0, 1, 2, 3, 4, 0, 0, 7, 8, 9, 10]);
    for (i, s) in p.segments.iter().enumerate().skip(1) {
        let j = s.joint.unwrap();
        assert!(j.parent < i);
        assert_eq!(j.data.locked_axes, LOCKED_FIXED_AXES);
        assert_eq!(j.data.local_axis1, Vec3Milli::new(0, 1000, 0));
        assert_eq!(j.data.local_axis2, Vec3Milli::new(0, 1000, 0));
    }
}

#[test]
fn humanoid_joint_anchors() {
    let p = spawn_humanoid(Vec3Milli::zero());
    let anchors = |i: usize| {
        let j = p.segments[i].joint.unwrap();
        (j.data.local_anchor1, j.data.local_anchor2)
    };
    // Hips: a tenth of a unit to each side of the trunk's lower face.
    assert_eq!(anchors(1), (Vec3Milli::new(100, -300, 0), Vec3Milli::new(0, 200, 0)));
    assert_eq!(anchors(2), (Vec3Milli::new(-100, -300, 0), Vec3Milli::new(0, 200, 0)));
    // Knees: bottom of the thigh to the top of the shin.
    assert_eq!(anchors(3), (Vec3Milli::new(0, -200, 0), Vec3Milli::new(0, 200, 0)));
    assert_eq!(anchors(4), (Vec3Milli::new(0, -200, 0), Vec3Milli::new(0, 200, 0)));
    // Ankles: the foot's anchor sits over the heel, not its centre.
    assert_eq!(anchors(5), (Vec3Milli::new(0, -200, 0), Vec3Milli::new(0, 20, 60)));
    assert_eq!(anchors(6), (Vec3Milli::new(0, -200, 0), Vec3Milli::new(0, 20, 60)));
    // Shoulders: the trunk's upper corners; the arm hangs by the thigh's
    // half-height.
    assert_eq!(anchors(7), (Vec3Milli::new(200, 300, 0), Vec3Milli::new(0, 200, 0)));
    assert_eq!(anchors(8), (Vec3Milli::new(-200, 300, 0), Vec3Milli::new(0, 200, 0)));
    // Elbows and wrists.
    assert_eq!(anchors(9), (Vec3Milli::new(0, -150, 0), Vec3Milli::new(0, 150, 0)));
    assert_eq!(anchors(10), (Vec3Milli::new(0, -150, 0), Vec3Milli::new(0, 150, 0)));
    assert_eq!(anchors(11), (Vec3Milli::new(0, -150, 0), Vec3Milli::new(0, 100, 0)));
    assert_eq!(anchors(12), (Vec3Milli::new(0, -150, 0), Vec3Milli::new(0, 100, 0)));
}

#[test]
fn humanoid_masses_and_inertia() {
    let p = spawn_humanoid(Vec3Milli::zero());
    let masses: Vec<u32> = p.segments.iter().map(|s| s.mass).collect();
    assert_eq!(
        masses,
        vec![20000, 5000, 5000, 5000, 5000, 1000, 1000, 5000, 5000, 5000, 5000, 1000, 1000]
    );
    assert_eq!(p.segments[0].principal_inertia, Vec3Milli::new(5000, 2000, 5000));
    assert_eq!(p.segments[1].principal_inertia, Vec3Milli::new(500, 200, 500));
    assert_eq!(p.segments[5].principal_inertia, Vec3Milli::new(100, 100, 100));
    assert_eq!(total_mass(&p), 64000);
}

#[test]
fn humanoid_segment_surfaces() {
    let p = spawn_humanoid(Vec3Milli::zero());
    for s in p.segments.iter() {
        assert_eq!(s.friction, 500);
        assert_eq!(s.restitution, 0);
        assert_eq!(s.contact_force_threshold, 100);
        assert!(s.ccd_enabled);
        assert_eq!(s.groups.memberships, HUMANOID_TRAINING_GROUP);
        assert_eq!(s.groups.filters, STATIC_GROUP);
        let c = get_collider(&s.size);
        assert_eq!(s.collider, c);
    }
    // Only the trunk is damped.
    assert_eq!(p.segments[0].damping, Some(Damping { linear: 50, angular: 50 }));
    assert!(p.segments[1..].iter().all(|s| s.damping.is_none()));
}

#[test]
fn upperarm_reuses_thigh_display_box() {
    let p = spawn_humanoid(Vec3Milli::zero());
    let ua = &p.segments[7];
    assert_eq!(ua.size, BodySize::upperarm());
    assert_eq!(ua.mesh_size, BodySize::femur());
    // Every other segment is drawn at its own size.
    for (i, s) in p.segments.iter().enumerate() {
        if i != 7 && i != 8 {
            assert_eq!(s.mesh_size, s.size);
        }
    }
}

#[test]
fn limb_pairs_are_mirrored() {
    let p = spawn_humanoid(Vec3Milli::zero());
    for i in [1, 3, 5, 7, 9, 11] {
        let left = &p.segments[i];
        let right = &p.segments[i + 1];
        assert_eq!(left.side, Some(Side::Left));
        assert_eq!(right.side, Some(Side::Right));
        assert_eq!(left.kind, right.kind);
        assert_eq!(left.size, right.size);
        assert_eq!(left.mass, right.mass);
        let lj = left.joint.unwrap().data;
        let rj = right.joint.unwrap().data;
        assert_eq!(lj.local_anchor1.x, -rj.local_anchor1.x);
        assert_eq!(lj.local_anchor1.y, rj.local_anchor1.y);
        assert_eq!(lj.local_anchor2, rj.local_anchor2);
    }
}

#[test]
fn humanoid_colors() {
    let p = spawn_humanoid(Vec3Milli::zero());
    let c = |i: usize| {
        let col = p.segments[i].color;
        (col.red, col.green, col.blue, col.alpha)
    };
    assert_eq!(c(0), (300, 200, 200, 500));
    assert_eq!(c(1), (200, 300, 200, 500));
    assert_eq!(c(3), (200, 200, 300, 500));
    assert_eq!(c(5), (200, 200, 200, 500));
    assert_eq!(c(7), (200, 300, 200, 500));
    assert_eq!(c(9), (200, 200, 300, 500));
    assert_eq!(c(11), (200, 200, 200, 500));
}

#[test]
fn segment_labels() {
    assert_eq!(SegmentKind::Body.label(), "body");
    assert_eq!(SegmentKind::Femur.label(), "femur");
    assert_eq!(SegmentKind::Tibia.label(), "tibia");
    assert_eq!(SegmentKind::Foot.label(), "foot");
    assert_eq!(SegmentKind::UpperArm.label(), "upperarm");
    assert_eq!(SegmentKind::Forearm.label(), "forearm");
    assert_eq!(SegmentKind::Palm.label(), "palm");
}

#[test]
fn startup_places_humanoid_one_unit_up() {
    let p = humanoid_start_system();
    assert_eq!(p.segments.len(), 13);
    assert!(p.segments.iter().all(|s| s.translation == Vec3Milli::new(0, 1000, 0)));
}

#[test]
fn simulation_parameters() {
    let c = sim_config();
    assert_eq!(c.fps, 60);
    assert_eq!(c.substeps, 10);
    assert_eq!(c.max_velocity_iterations, 512);
    assert_eq!(c.max_stabilization_iterations, 512);
}

use articulated::{create_revolute_joints, Axis, BodyDescriptor, Collider, RigidKind, Vec3, LINK_SPACING};

fn world(b: &BodyDescriptor, p: Vec3) -> Vec3 {
    assert_eq!(b.frame_parent, None);
    let t = b.transform.translation;
    Vec3::new(t.x + p.x, t.y + p.y, t.z + p.z)
}

#[test]
fn empty_chain_is_the_anchor_alone() {
    let origin = Vec3::new(40000, 0, 0);
    let chain = create_revolute_joints(origin, 0);
    assert_eq!(chain.bodies.len(), 1);
    assert_eq!(chain.joints.len(), 0);
    assert_eq!(chain.bodies[0].kind, RigidKind::Fixed);
    assert_eq!(chain.bodies[0].transform.translation, origin);
    assert_eq!(chain.bodies[0].collider, Collider::Cuboid { half_x: 800, half_y: 800, half_z: 800 });
}

#[test]
fn one_ring_has_five_bodies_and_four_joints() {
    let origin = Vec3::new(40000, 0, 0);
    let chain = create_revolute_joints(origin, 1);
    assert_eq!(chain.bodies.len(), 5);
    assert_eq!(chain.joints.len(), 4);
    let at: Vec<Vec3> = chain.bodies.iter().map(|b| b.transform.translation).collect();
    assert_eq!(
        at,
        vec![
            Vec3::new(40000, 0, 0),
            Vec3::new(40000, 0, 4000),
            Vec3::new(44000, 0, 4000),
            Vec3::new(44000, 0, 8000),
            Vec3::new(40000, 0, 8000),
        ]
    );
    let axes: Vec<Axis> = chain.joints.iter().map(|j| j.axis).collect();
    assert_eq!(axes, vec![Axis::Z, Axis::X, Axis::Z, Axis::X]);
    for b in &chain.bodies[1..] {
        assert_eq!(b.kind, RigidKind::Dynamic);
    }
}

#[test]
fn chain_counts_grow_by_four_per_ring() {
    for k in 0..6usize {
        let chain = create_revolute_joints(Vec3::new(1, 2, 3), k);
        assert_eq!(chain.bodies.len(), 1 + 4 * k);
        assert_eq!(chain.joints.len(), 4 * k);
        for (j, joint) in chain.joints.iter().enumerate() {
            assert_eq!(joint.parent, j);
            assert_eq!(joint.child, j + 1);
        }
    }
}

#[test]
fn next_ring_hangs_on_last_cube_of_previous() {
    let chain = create_revolute_joints(Vec3::new(0, 0, 0), 3);
    assert_eq!(chain.joints[4].parent, 4);
    assert_eq!(chain.joints[8].parent, 8);
    assert_eq!(chain.bodies[5].transform.translation, Vec3::new(0, 0, 3 * LINK_SPACING));
    assert_eq!(chain.bodies[12].transform.translation, Vec3::new(0, 0, 6 * LINK_SPACING));
}

#[test]
fn chain_joint_anchors_meet_at_spawn() {
    let chain = create_revolute_joints(Vec3::new(-123, 456, -789), 4);
    for j in chain.joints.iter() {
        assert_eq!(
            world(&chain.bodies[j.parent], j.parent_anchor),
            world(&chain.bodies[j.child], j.child_anchor)
        );
    }
}

#[test]
fn chain_near_the_largest_coordinates() {
    let origin = Vec3::new(i64::MAX - LINK_SPACING, i64::MAX, i64::MAX - 2 * LINK_SPACING);
    let chain = create_revolute_joints(origin, 1);
    assert_eq!(chain.bodies[3].transform.translation, Vec3::new(i64::MAX, i64::MAX, i64::MAX));
    let low = create_revolute_joints(Vec3::new(i64::MIN, i64::MIN, i64::MIN), 2);
    assert_eq!(low.bodies[8].transform.translation.z, i64::MIN + 4 * LINK_SPACING);
}

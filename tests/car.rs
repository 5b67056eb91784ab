use articulated::{
    build_car, BodyDescriptor, CarConfig, CarWheel, Collider, JointDescriptor, Mesh, Orientation,
    RigidKind, Vec3, Wheel, Axis,
};

const WHEELS: [Wheel; 4] = [Wheel::FrontLeft, Wheel::FrontRight, Wheel::RearLeft, Wheel::RearRight];

fn rotate(o: Orientation, p: Vec3) -> Vec3 {
    match o {
        Orientation::Identity => p,
        Orientation::QuarterTurnX => Vec3::new(p.x, -p.z, p.y),
    }
}

fn place(b: &BodyDescriptor, p: Vec3) -> Vec3 {
    let r = rotate(b.transform.rotation, p);
    let t = b.transform.translation;
    Vec3::new(t.x + r.x, t.y + r.y, t.z + r.z)
}

fn world(bodies: &[BodyDescriptor], i: usize, p: Vec3) -> Vec3 {
    let local = place(&bodies[i], p);
    match bodies[i].frame_parent {
        None => local,
        Some(q) => place(&bodies[q], local),
    }
}

fn check_joint(bodies: &[BodyDescriptor], j: &JointDescriptor) {
    assert_eq!(world(bodies, j.parent, j.parent_anchor), world(bodies, j.child, j.child_anchor));
}

#[test]
fn default_config_dimensions() {
    let car = CarConfig::default();
    assert_eq!(car.length, 2000);
    assert_eq!(car.width, 1200);
    assert_eq!(car.height, 1000);
    assert_eq!(car.wheel_diameter, 2000);
    assert_eq!(car.wheel_width, 300);
}

#[test]
fn wheel_offsets_of_default_car() {
    let car = CarConfig::default();
    // (1.0, 0.6, 0.6) m and (-1.0, 0.6, -0.6) m.
    assert_eq!(CarWheel::new(Wheel::FrontLeft, &car).pos(), Vec3::new(2000, 1200, 1200));
    assert_eq!(CarWheel::new(Wheel::RearRight, &car).pos(), Vec3::new(-2000, 1200, -1200));
    assert_eq!(CarWheel::new(Wheel::FrontRight, &car).pos(), Vec3::new(2000, 1200, -1200));
    assert_eq!(CarWheel::new(Wheel::RearLeft, &car).pos(), Vec3::new(-2000, 1200, 1200));
}

#[test]
fn wheel_offsets_distinct_and_one_per_quadrant() {
    let car = CarConfig { length: 3000, width: 1700, height: 900, wheel_diameter: 700, wheel_width: 250 };
    let offsets: Vec<Vec3> = WHEELS.iter().map(|w| CarWheel::new(*w, &car).pos()).collect();
    for a in 0..4 {
        for b in 0..4 {
            if a != b {
                assert_ne!(offsets[a], offsets[b]);
            }
        }
    }
    let mut signs: Vec<(i64, i64)> = offsets.iter().map(|o| (o.x.signum(), o.z.signum())).collect();
    signs.sort();
    assert_eq!(signs, vec![(-1, -1), (-1, 1), (1, -1), (1, 1)]);
}

#[test]
fn chassis_and_wheel_shapes() {
    let car = CarConfig::default();
    assert_eq!(car.car_box(), Mesh::Cuboid { size_x: 4000, size_y: 2000, size_z: 2400 });
    assert_eq!(car.collider(), Collider::Cuboid { half_x: 2000, half_y: 1000, half_z: 1200 });
    assert_eq!(car.wheel_shape(), Mesh::Cylinder { height: 600, radius: 2000 });
    assert_eq!(car.wheel_collider(), Collider::Cylinder { half_height: 300, radius: 2000 });
}

#[test]
fn chassis_collider_is_half_the_box() {
    let car = CarConfig { length: 4501, width: 1999, height: 77, wheel_diameter: 3, wheel_width: 1 };
    match (car.car_box(), car.collider()) {
        (Mesh::Cuboid { size_x, size_y, size_z }, Collider::Cuboid { half_x, half_y, half_z }) => {
            assert_eq!((size_x, size_y, size_z), (2 * half_x, 2 * half_y, 2 * half_z));
            assert_eq!((half_x, half_y, half_z), (4501, 77, 1999));
        }
        _ => panic!("chassis is not a box"),
    }
}

#[test]
fn car_has_one_chassis_and_four_wheels() {
    let car = CarConfig::default();
    let at = Vec3::new(0, 2000, 0);
    let built = build_car(&car, at);
    assert_eq!(built.bodies.len(), 5);
    assert_eq!(built.joints.len(), 4);
    let chassis = &built.bodies[0];
    assert_eq!(chassis.frame_parent, None);
    assert_eq!(chassis.kind, RigidKind::Dynamic);
    assert_eq!(chassis.transform.translation, at);
    assert_eq!(chassis.mesh, car.car_box());
    for (i, j) in built.joints.iter().enumerate() {
        assert_eq!(j.parent, 0);
        assert_eq!(j.child, i + 1);
        assert_eq!(j.axis, Axis::Z);
        assert_eq!(j.child_anchor, Vec3::zero());
        let pos = CarWheel::new(WHEELS[i], &car).pos();
        assert_eq!(j.parent_anchor, pos);
        let wheel = &built.bodies[i + 1];
        assert_eq!(wheel.frame_parent, Some(0));
        assert_eq!(wheel.kind, RigidKind::Dynamic);
        assert_eq!(wheel.transform.translation, pos);
        assert_eq!(wheel.transform.rotation, Orientation::QuarterTurnX);
        assert_eq!(wheel.collider, car.wheel_collider());
    }
}

#[test]
fn car_joint_anchors_meet_at_spawn() {
    let car = CarConfig { length: 2500, width: 1300, height: 800, wheel_diameter: 600, wheel_width: 200 };
    let built = build_car(&car, Vec3::new(-7, 3000, 42));
    for j in built.joints.iter() {
        check_joint(&built.bodies, j);
    }
    assert_eq!(world(&built.bodies, 1, Vec3::zero()), Vec3::new(2493, 4300, 1342));
}

#[test]
fn car_built_twice_is_equal_and_independent() {
    let car = CarConfig::default();
    let at = Vec3::new(0, 2000, 0);
    let first = build_car(&car, at);
    let mut second = build_car(&car, at);
    assert_eq!(first.bodies, second.bodies);
    assert_eq!(first.joints, second.joints);
    second.bodies[1].transform.translation = Vec3::new(9, 9, 9);
    second.joints.pop();
    assert_eq!(first.bodies[1].transform.translation, Vec3::new(2000, 1200, 1200));
    assert_eq!(first.joints.len(), 4);
}

#[test]
fn car_with_largest_dimensions() {
    let m = u32::MAX;
    let car = CarConfig { length: m, width: m, height: m, wheel_diameter: m, wheel_width: m };
    let built = build_car(&car, Vec3::new(0, 0, 0));
    assert_eq!(built.bodies[4].transform.translation, Vec3::new(-(m as i64), m as i64, -(m as i64)));
    assert_eq!(car.car_box(), Mesh::Cuboid { size_x: 2 * m as i64, size_y: 2 * m as i64, size_z: 2 * m as i64 });
}

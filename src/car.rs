use vstd::prelude::*;
use crate::body::{
    anchors_agree, collider_matches_mesh, shapes_consistent, well_formed, world_point, ArticulatedBody,
    BodyDescriptor, Collider, JointDescriptor, Mesh, RigidKind,
};
use crate::geometry::{Axis, Orientation, Transform, Vec3};

verus! {

/// Dimensions of a car, in whole millimetres.
#[derive(Clone, Copy, Debug, PartialEq, Eq, Structural)]
pub struct CarConfig {
    /// Chassis extent along x, front to back.
    pub length: u32,
    /// Chassis extent along z, side to side.
    pub width: u32,
    /// Chassis extent along y.
    pub height: u32,
    pub wheel_diameter: u32,
    pub wheel_width: u32,
}

impl CarConfig {
    /// Every dimension is positive: otherwise the geometry is degenerate.
    pub open spec fn valid(self) -> bool {
        self.length > 0 && self.width > 0 && self.height > 0 && self.wheel_diameter > 0
            && self.wheel_width > 0
    }

    /// The chassis box: length, height and width, in that order of axes.
    pub open spec fn spec_car_box(self) -> Mesh {
        Mesh::Cuboid {
            size_x: (2 * self.length) as i64,
            size_y: (2 * self.height) as i64,
            size_z: (2 * self.width) as i64,
        }
    }

    /// The chassis collider: half of each extent of the box.
    pub open spec fn spec_collider(self) -> Collider {
        Collider::Cuboid {
            half_x: self.length as i64,
            half_y: self.height as i64,
            half_z: self.width as i64,
        }
    }

    /// A wheel: a cylinder as tall as the wheel is wide, with half the diameter
    /// as radius.
    pub open spec fn spec_wheel_shape(self) -> Mesh {
        Mesh::Cylinder {
            height: (2 * self.wheel_width) as i64,
            radius: self.wheel_diameter as i64,
        }
    }

    pub open spec fn spec_wheel_collider(self) -> Collider {
        Collider::Cylinder {
            half_height: self.wheel_width as i64,
            radius: self.wheel_diameter as i64,
        }
    }

    // A length of n millimetres is 2n half-millimetres, and half of it is n.
    pub fn car_box(&self) -> (r: Mesh)
        ensures
            r == self.spec_car_box(),
    {
        Mesh::Cuboid {
            size_x: 2 * (self.length as i64),
            size_y: 2 * (self.height as i64),
            size_z: 2 * (self.width as i64),
        }
    }

    pub fn collider(&self) -> (r: Collider)
        ensures
            r == self.spec_collider(),
    {
        Collider::Cuboid {
            half_x: self.length as i64,
            half_y: self.height as i64,
            half_z: self.width as i64,
        }
    }

    pub fn wheel_shape(&self) -> (r: Mesh)
        ensures
            r == self.spec_wheel_shape(),
    {
        Mesh::Cylinder { height: 2 * (self.wheel_width as i64), radius: self.wheel_diameter as i64 }
    }

    pub fn wheel_collider(&self) -> (r: Collider)
        ensures
            r == self.spec_wheel_collider(),
    {
        Collider::Cylinder {
            half_height: self.wheel_width as i64,
            radius: self.wheel_diameter as i64,
        }
    }
}

impl Default for CarConfig {
    /// A car 2 m long, 1.2 m wide and 1 m high, on wheels 2 m across and
    /// 0.3 m wide.
    fn default() -> (r: CarConfig)
        ensures
            r.length == 2000 && r.width == 1200 && r.height == 1000,
            r.wheel_diameter == 2000 && r.wheel_width == 300,
    {
        CarConfig { length: 2000, width: 1200, height: 1000, wheel_diameter: 2000, wheel_width: 300 }
    }
}

/// Where a wheel sits on the chassis.
#[derive(Clone, Copy, Debug, PartialEq, Eq, Structural)]
pub enum Wheel {
    FrontLeft,
    FrontRight,
    RearLeft,
    RearRight,
}

impl Wheel {
    /// +1 at the front, -1 at the rear.
    pub open spec fn longitudinal_sign(self) -> int {
        match self {
            Wheel::FrontLeft | Wheel::FrontRight => 1,
            Wheel::RearLeft | Wheel::RearRight => -1,
        }
    }

    /// +1 on the left, -1 on the right.
    pub open spec fn lateral_sign(self) -> int {
        match self {
            Wheel::FrontLeft | Wheel::RearLeft => 1,
            Wheel::FrontRight | Wheel::RearRight => -1,
        }
    }

    /// The wheels in the order they are built.
    pub open spec fn nth(i: int) -> Wheel {
        if i == 0 {
            Wheel::FrontLeft
        } else if i == 1 {
            Wheel::FrontRight
        } else if i == 2 {
            Wheel::RearLeft
        } else {
            Wheel::RearRight
        }
    }
}

/// The centre of a wheel relative to the chassis centre: half the length to
/// the front or rear, half the width to the left or right, and half the width
/// up.
pub open spec fn wheel_offset(car: CarConfig, wheel: Wheel) -> Vec3 {
    Vec3 {
        x: (wheel.longitudinal_sign() * car.length) as i64,
        y: car.width as i64,
        z: (wheel.lateral_sign() * car.width) as i64,
    }
}

/// The body of a wheel, placed in the frame of the chassis at `chassis`.
pub open spec fn wheel_body(car: CarConfig, wheel: Wheel, chassis: usize) -> BodyDescriptor {
    BodyDescriptor {
        kind: RigidKind::Dynamic,
        mesh: car.spec_wheel_shape(),
        collider: car.spec_wheel_collider(),
        transform: Transform { translation: wheel_offset(car, wheel), rotation: Orientation::QuarterTurnX },
        frame_parent: Some(chassis),
    }
}

/// The joint of a wheel: it turns about the lateral axis, about its own centre,
/// which sits at the wheel's offset on the chassis.
pub open spec fn wheel_joint(car: CarConfig, wheel: Wheel, chassis: usize, child: usize) -> JointDescriptor {
    JointDescriptor {
        parent: chassis,
        child,
        axis: Axis::Z,
        parent_anchor: wheel_offset(car, wheel),
        child_anchor: Vec3 { x: 0, y: 0, z: 0 },
    }
}

pub open spec fn chassis_body(car: CarConfig, at: Vec3) -> BodyDescriptor {
    BodyDescriptor {
        kind: RigidKind::Dynamic,
        mesh: car.spec_car_box(),
        collider: car.spec_collider(),
        transform: Transform { translation: at, rotation: Orientation::Identity },
        frame_parent: None,
    }
}

/// The bodies of a car: the chassis, then the four wheels in build order.
pub open spec fn car_bodies(car: CarConfig, at: Vec3) -> Seq<BodyDescriptor> {
    seq![chassis_body(car, at)] + Seq::new(4, |i: int| wheel_body(car, Wheel::nth(i), 0))
}

/// The joints of a car: wheel `i` (body `i + 1`) hangs on the chassis (body 0).
pub open spec fn car_joints(car: CarConfig) -> Seq<JointDescriptor> {
    Seq::new(4, |i: int| wheel_joint(car, Wheel::nth(i), 0, (i + 1) as usize))
}

/// A wheel of a given car.
pub struct CarWheel<'a> {
    pub wheel: Wheel,
    pub car: &'a CarConfig,
}

impl<'a> CarWheel<'a> {
    pub fn new(wheel: Wheel, car: &'a CarConfig) -> (r: CarWheel<'a>)
        ensures
            r.wheel == wheel && *r.car == *car,
    {
        CarWheel { wheel, car }
    }

    /// The wheel's centre relative to the chassis centre.
    pub fn pos(&self) -> (r: Vec3)
        ensures
            r == wheel_offset(*self.car, self.wheel),
    {
        // Half of n millimetres is n half-millimetres.
        let l = self.car.length as i64;
        let w = self.car.width as i64;
        let (x, z) = match self.wheel {
            Wheel::FrontLeft => (l, w),
            Wheel::FrontRight => (l, -w),
            Wheel::RearLeft => (-l, w),
            Wheel::RearRight => (-l, -w),
        };
        Vec3 { x, y: w, z }
    }

    /// The wheel's body, in the frame of body `chassis`, and the joint that
    /// hangs it, as body `child`, on the chassis.
    pub fn parts(&self, chassis: usize, child: usize) -> (r: (BodyDescriptor, JointDescriptor))
        ensures
            r.0 == wheel_body(*self.car, self.wheel, chassis),
            r.1 == wheel_joint(*self.car, self.wheel, chassis, child),
    {
        let pos = self.pos();
        let body = BodyDescriptor {
            kind: RigidKind::Dynamic,
            mesh: self.car.wheel_shape(),
            collider: self.car.wheel_collider(),
            transform: Transform { translation: pos, rotation: Orientation::QuarterTurnX },
            frame_parent: Some(chassis),
        };
        let joint = JointDescriptor {
            parent: chassis,
            child,
            axis: Axis::Z,
            parent_anchor: pos,
            child_anchor: Vec3::zero(),
        };
        (body, joint)
    }
}

/// Builds a car whose chassis stands upright at `at`, in the world, with its
/// four wheels attached by revolute joints.
pub fn build_car(car: &CarConfig, at: Vec3) -> (r: ArticulatedBody)
    ensures
        r.bodies@ == car_bodies(*car, at),
        r.joints@ == car_joints(*car),
{
    let mut bodies: Vec<BodyDescriptor> = Vec::new();
    let mut joints: Vec<JointDescriptor> = Vec::new();
    bodies.push(BodyDescriptor {
        kind: RigidKind::Dynamic,
        mesh: car.car_box(),
        collider: car.collider(),
        transform: Transform::from_translation(at),
        frame_parent: None,
    });
    let (b, j) = CarWheel::new(Wheel::FrontLeft, car).parts(0, 1);
    bodies.push(b);
    joints.push(j);
    let (b, j) = CarWheel::new(Wheel::FrontRight, car).parts(0, 2);
    bodies.push(b);
    joints.push(j);
    let (b, j) = CarWheel::new(Wheel::RearLeft, car).parts(0, 3);
    bodies.push(b);
    joints.push(j);
    let (b, j) = CarWheel::new(Wheel::RearRight, car).parts(0, 4);
    bodies.push(b);
    joints.push(j);
    assert(bodies@ =~= car_bodies(*car, at));
    assert(joints@ =~= car_joints(*car));
    ArticulatedBody { bodies, joints }
}

/// The sign of an integer: -1, 0 or +1.
pub open spec fn sign(v: int) -> int {
    if v > 0 {
        1
    } else if v < 0 {
        -1
    } else {
        0
    }
}

/// The (longitudinal, lateral) signs of the offsets of all wheels.
pub open spec fn wheel_sign_pairs(car: CarConfig) -> Set<(int, int)> {
    Set::new(
        |s: (int, int)|
            exists|w: Wheel| s == (sign(wheel_offset(car, w).x as int), sign(wheel_offset(car, w).z as int)),
    )
}

/// The four wheels of a car sit at four different places, one in each
/// quadrant: front or rear, left or right.
pub proof fn wheel_offsets_distinct(car: CarConfig)
    requires
        car.valid(),
    ensures
        forall|a: Wheel, b: Wheel| a != b ==> wheel_offset(car, a) != wheel_offset(car, b),
        wheel_sign_pairs(car) == set![(1int, 1int), (1int, -1int), (-1int, 1int), (-1int, -1int)],
{
    let target = set![(1int, 1int), (1int, -1int), (-1int, 1int), (-1int, -1int)];
    assert forall|s: (int, int)| wheel_sign_pairs(car).contains(s) <==> target.contains(s) by {
        if s == (1int, 1int) {
            assert(s == (sign(wheel_offset(car, Wheel::FrontLeft).x as int), sign(wheel_offset(car, Wheel::FrontLeft).z as int)));
        }
        if s == (1int, -1int) {
            assert(s == (sign(wheel_offset(car, Wheel::FrontRight).x as int), sign(wheel_offset(car, Wheel::FrontRight).z as int)));
        }
        if s == (-1int, 1int) {
            assert(s == (sign(wheel_offset(car, Wheel::RearLeft).x as int), sign(wheel_offset(car, Wheel::RearLeft).z as int)));
        }
        if s == (-1int, -1int) {
            assert(s == (sign(wheel_offset(car, Wheel::RearRight).x as int), sign(wheel_offset(car, Wheel::RearRight).z as int)));
        }
    }
    assert(wheel_sign_pairs(car) =~= target);
}

/// The chassis collider's half-extents are exactly half of the chassis box's
/// extents, axis by axis.
pub proof fn chassis_collider_halves_box(car: CarConfig)
    ensures
        collider_matches_mesh(car.spec_collider(), car.spec_car_box()),
        collider_matches_mesh(car.spec_wheel_collider(), car.spec_wheel_shape()),
{
}

/// A car is one chassis at the root with four wheels below it: five bodies and
/// four joints, each joint hanging a different wheel, a different slot, on the
/// chassis, and the chassis hanging on nothing. Whatever the dimensions, the
/// joints' anchors agree at spawn and every collider fits its mesh.
pub proof fn car_structure(car: CarConfig, at: Vec3)
    ensures
        ({
            let bodies = car_bodies(car, at);
            let joints = car_joints(car);
            &&& bodies.len() == 5
            &&& joints.len() == 4
            &&& well_formed(bodies, joints)
            &&& bodies[0].frame_parent is None
            &&& forall|j: int| 0 <= j < 4 ==> #[trigger] joints[j].parent == 0 && joints[j].child == j + 1
            &&& forall|j: int, k: int| 0 <= j < 4 && 0 <= k < 4 && j != k
                ==> Wheel::nth(j) != Wheel::nth(k)
            &&& anchors_agree(bodies, joints)
            &&& shapes_consistent(bodies)
        }),
{
    let bodies = car_bodies(car, at);
    let joints = car_joints(car);
    assert forall|j: int| 0 <= j < joints.len() implies
        world_point(bodies, joints[j].parent as int, joints[j].parent_anchor@)
            == world_point(bodies, joints[j].child as int, joints[j].child_anchor@) by {
        assert(bodies[j + 1] == wheel_body(car, Wheel::nth(j), 0));
    }
    assert forall|i: int| 0 <= i < bodies.len() implies
        collider_matches_mesh(bodies[i].collider, bodies[i].mesh) by {
        if i > 0 {
            assert(bodies[i] == wheel_body(car, Wheel::nth(i - 1), 0));
        }
    }
    assert forall|i: int| 0 <= i < bodies.len() && bodies[i].frame_parent is Some implies ({
        let q = bodies[i].frame_parent->0 as int;
        0 <= q < i && bodies[q].frame_parent is None
    }) by {
        if i > 0 {
            assert(bodies[i] == wheel_body(car, Wheel::nth(i - 1), 0));
        }
    }
}

/// Building a car twice from the same configuration and placement gives two
/// cars equal in every body and joint; each result owns its own vectors.
pub proof fn build_car_deterministic(car: CarConfig, at: Vec3, first: ArticulatedBody, second: ArticulatedBody)
    requires
        first.bodies@ == car_bodies(car, at) && first.joints@ == car_joints(car),
        second.bodies@ == car_bodies(car, at) && second.joints@ == car_joints(car),
    ensures
        first.bodies@ == second.bodies@,
        first.joints@ == second.joints@,
{
}

} // verus!

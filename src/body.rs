use vstd::prelude::*;
use crate::geometry::{Axis, Transform, Vec3};

verus! {

/// Whether the physics engine may move a body.
#[derive(Clone, Copy, Debug, PartialEq, Eq, Structural)]
pub enum RigidKind {
    /// Immobile, unaffected by forces: an anchor.
    Fixed,
    /// Moved by gravity and contacts.
    Dynamic,
}

/// A visual mesh, in half-millimetres.
#[derive(Clone, Copy, Debug, PartialEq, Eq, Structural)]
pub enum Mesh {
    /// A box with its full extents along x, y and z.
    Cuboid { size_x: i64, size_y: i64, size_z: i64 },
    /// A cylinder about its local y axis.
    Cylinder { height: i64, radius: i64 },
}

/// A collision shape, in half-millimetres.
#[derive(Clone, Copy, Debug, PartialEq, Eq, Structural)]
pub enum Collider {
    /// A box given by its half-extents along x, y and z.
    Cuboid { half_x: i64, half_y: i64, half_z: i64 },
    /// A cylinder about its local y axis.
    Cylinder { half_height: i64, radius: i64 },
}

/// The collider has exactly the extents of the mesh, so that what is drawn and
/// what collides never differ.
pub open spec fn collider_matches_mesh(c: Collider, m: Mesh) -> bool {
    match (c, m) {
        (Collider::Cuboid { half_x, half_y, half_z }, Mesh::Cuboid { size_x, size_y, size_z }) =>
            2 * half_x == size_x && 2 * half_y == size_y && 2 * half_z == size_z,
        (Collider::Cylinder { half_height, radius: rc }, Mesh::Cylinder { height, radius: rm }) =>
            2 * half_height == height && rc == rm,
        _ => false,
    }
}

/// One body to spawn.
#[derive(Clone, Copy, Debug, PartialEq, Eq, Structural)]
pub struct BodyDescriptor {
    pub kind: RigidKind,
    pub mesh: Mesh,
    pub collider: Collider,
    /// Placement relative to the body at `frame_parent`, or to the world when
    /// there is none.
    pub transform: Transform,
    /// Index of the body whose frame `transform` is given in.
    pub frame_parent: Option<usize>,
}

/// A revolute joint: `child` may only turn about `axis` relative to `parent`.
#[derive(Clone, Copy, Debug, PartialEq, Eq, Structural)]
pub struct JointDescriptor {
    /// Index of the parent body.
    pub parent: usize,
    /// Index of the child body, which carries the joint.
    pub child: usize,
    /// The rotation axis, in the parent's frame.
    pub axis: Axis,
    /// Anchor point in the parent's local frame.
    pub parent_anchor: Vec3,
    /// Anchor point in the child's local frame.
    pub child_anchor: Vec3,
}

/// Bodies and the joints between them, referring to bodies by index.
#[derive(Debug)]
pub struct ArticulatedBody {
    pub bodies: Vec<BodyDescriptor>,
    pub joints: Vec<JointDescriptor>,
}

/// Where the point `p`, given in the local frame of body `i`, is in the world
/// when every body stands at its spawn placement.
pub open spec fn world_point(bodies: Seq<BodyDescriptor>, i: int, p: (int, int, int)) -> (int, int, int) {
    let local = bodies[i].transform.apply(p);
    match bodies[i].frame_parent {
        Option::None => local,
        Option::Some(q) => bodies[q as int].transform.apply(local),
    }
}

/// Every index is in range, a frame parent comes earlier and is placed in the
/// world, and no joint ties a body to itself.
pub open spec fn well_formed(bodies: Seq<BodyDescriptor>, joints: Seq<JointDescriptor>) -> bool {
    &&& forall|i: int| #![trigger bodies[i].frame_parent]
        0 <= i < bodies.len() && bodies[i].frame_parent is Some ==> {
            let q = bodies[i].frame_parent->0 as int;
            0 <= q < i && bodies[q].frame_parent is None
        }
    &&& forall|j: int| #![trigger joints[j]]
        0 <= j < joints.len() ==> {
            &&& joints[j].parent < bodies.len()
            &&& joints[j].child < bodies.len()
            &&& joints[j].parent != joints[j].child
        }
}

/// At spawn, the two anchors of every joint are the same point of the world,
/// so the engine has no constraint error to correct at the first step.
pub open spec fn anchors_agree(bodies: Seq<BodyDescriptor>, joints: Seq<JointDescriptor>) -> bool {
    forall|j: int| #![trigger joints[j]]
        0 <= j < joints.len() ==>
            world_point(bodies, joints[j].parent as int, joints[j].parent_anchor@)
                == world_point(bodies, joints[j].child as int, joints[j].child_anchor@)
}

/// Every body's collider has the extents of its mesh.
pub open spec fn shapes_consistent(bodies: Seq<BodyDescriptor>) -> bool {
    forall|i: int| #![trigger bodies[i]]
        0 <= i < bodies.len() ==> collider_matches_mesh(bodies[i].collider, bodies[i].mesh)
}

} // verus!

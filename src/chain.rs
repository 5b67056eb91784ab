use vstd::prelude::*;
use crate::body::{
    anchors_agree, shapes_consistent, well_formed, world_point,
    ArticulatedBody, BodyDescriptor, Collider, JointDescriptor, Mesh, RigidKind,
};
use crate::geometry::{add3, Axis, Orientation, Transform, Vec3};

verus! {

/// Half the edge of every cube of a chain (0.4 m), in half-millimetres.
pub const LINK_HALF_EXTENT: i64 = 800;

/// Distance between neighbouring cubes of a chain (2 m), in half-millimetres.
pub const LINK_SPACING: i64 = 4000;

/// Where body `b` (at least 1) of a chain anchored at `origin` stands. Body
/// `b` is corner `(b - 1) % 4` of ring `(b - 1) / 4`; the corners of a ring go
/// round a square in the x-z plane, and each ring lies two spacings further
/// along z than the one before.
pub open spec fn link_position(origin: Vec3, b: int) -> Vec3 {
    let ring = (b - 1) / 4;
    let corner = (b - 1) % 4;
    Vec3 {
        x: (origin.x + if corner == 1 || corner == 2 { LINK_SPACING as int } else { 0 }) as i64,
        y: origin.y,
        z: (origin.z + 2 * LINK_SPACING * ring + LINK_SPACING
            + if corner >= 2 { LINK_SPACING as int } else { 0 }) as i64,
    }
}

pub open spec fn link_mesh() -> Mesh {
    Mesh::Cuboid {
        size_x: (2 * LINK_HALF_EXTENT) as i64,
        size_y: (2 * LINK_HALF_EXTENT) as i64,
        size_z: (2 * LINK_HALF_EXTENT) as i64,
    }
}

pub open spec fn link_collider() -> Collider {
    Collider::Cuboid { half_x: LINK_HALF_EXTENT, half_y: LINK_HALF_EXTENT, half_z: LINK_HALF_EXTENT }
}

/// Body `b` of a chain: the fixed anchor at `origin` for `b == 0`, else a
/// dynamic cube.
pub open spec fn chain_body(origin: Vec3, b: int) -> BodyDescriptor {
    BodyDescriptor {
        kind: if b == 0 { RigidKind::Fixed } else { RigidKind::Dynamic },
        mesh: link_mesh(),
        collider: link_collider(),
        transform: Transform {
            translation: if b == 0 { origin } else { link_position(origin, b) },
            rotation: Orientation::Identity,
        },
        frame_parent: None,
    }
}

/// The anchor of a joint on its child, by the corner of the child: the vector
/// from the child back to its parent.
pub open spec fn corner_child_anchor(corner: int) -> Vec3 {
    if corner == 0 || corner == 2 {
        Vec3 { x: 0, y: 0, z: (-LINK_SPACING) as i64 }
    } else if corner == 1 {
        Vec3 { x: (-LINK_SPACING) as i64, y: 0, z: 0 }
    } else {
        Vec3 { x: LINK_SPACING, y: 0, z: 0 }
    }
}

/// Joint `j` of a chain hangs body `j + 1` on body `j`, about z and x in turn.
pub open spec fn chain_joint(j: int) -> JointDescriptor {
    JointDescriptor {
        parent: j as usize,
        child: (j + 1) as usize,
        axis: if j % 4 == 0 || j % 4 == 2 { Axis::Z } else { Axis::X },
        parent_anchor: Vec3 { x: 0, y: 0, z: 0 },
        child_anchor: corner_child_anchor(j % 4),
    }
}

pub open spec fn chain_bodies(origin: Vec3, num: nat) -> Seq<BodyDescriptor> {
    Seq::new(1 + 4 * num, |b: int| chain_body(origin, b))
}

pub open spec fn chain_joints(num: nat) -> Seq<JointDescriptor> {
    Seq::new(4 * num, |j: int| chain_joint(j))
}

/// Every coordinate of a chain of `num` rings at `origin` fits in an `i64`,
/// and its bodies can be counted in a `usize`.
pub open spec fn chain_fits(origin: Vec3, num: nat) -> bool {
    &&& origin.x + LINK_SPACING <= i64::MAX
    &&& origin.z + 2 * LINK_SPACING * num <= i64::MAX
    &&& 1 + 4 * num <= usize::MAX
}

fn link_body(kind: RigidKind, at: Vec3) -> (r: BodyDescriptor)
    ensures
        r == (BodyDescriptor {
            kind,
            mesh: link_mesh(),
            collider: link_collider(),
            transform: Transform { translation: at, rotation: Orientation::Identity },
            frame_parent: None,
        }),
{
    BodyDescriptor {
        kind,
        mesh: Mesh::Cuboid {
            size_x: 2 * LINK_HALF_EXTENT,
            size_y: 2 * LINK_HALF_EXTENT,
            size_z: 2 * LINK_HALF_EXTENT,
        },
        collider: Collider::Cuboid {
            half_x: LINK_HALF_EXTENT,
            half_y: LINK_HALF_EXTENT,
            half_z: LINK_HALF_EXTENT,
        },
        transform: Transform::from_translation(at),
        frame_parent: None,
    }
}

fn link_joint(parent: usize, axis: Axis, child_anchor: Vec3) -> (r: JointDescriptor)
    requires
        parent < usize::MAX,
    ensures
        r == (JointDescriptor {
            parent,
            child: (parent + 1) as usize,
            axis,
            parent_anchor: Vec3 { x: 0, y: 0, z: 0 },
            child_anchor,
        }),
{
    JointDescriptor { parent, child: parent + 1, axis, parent_anchor: Vec3::zero(), child_anchor }
}

/// Builds a chain of `num` rings of four cubes hanging from a fixed anchor at
/// `origin`. With no rings, the anchor stands alone.
pub fn create_revolute_joints(origin: Vec3, num: usize) -> (r: ArticulatedBody)
    requires
        chain_fits(origin, num as nat),
    ensures
        r.bodies@ == chain_bodies(origin, num as nat),
        r.joints@ == chain_joints(num as nat),
{
    let mut bodies: Vec<BodyDescriptor> = Vec::new();
    let mut joints: Vec<JointDescriptor> = Vec::new();
    bodies.push(link_body(RigidKind::Fixed, origin));
    let mut i: usize = 0;
    // The z coordinate where ring `i` begins, less one spacing.
    let mut base: i64 = origin.z;
    while i < num
        invariant
            base == origin.z + 2 * LINK_SPACING * i,
            chain_fits(origin, num as nat),
            i <= num,
            bodies@ =~= chain_bodies(origin, i as nat),
            joints@ =~= chain_joints(i as nat),
        decreases num - i,
    {
        proof {
            assert(8000 * i + 8000 <= 8000 * num) by (nonlinear_arith)
                requires
                    i < num,
            ;
        }
        let z = base + LINK_SPACING;
        let positions = [
            Vec3::new(origin.x, origin.y, z),
            Vec3::new(origin.x + LINK_SPACING, origin.y, z),
            Vec3::new(origin.x + LINK_SPACING, origin.y, z + LINK_SPACING),
            Vec3::new(origin.x, origin.y, z + LINK_SPACING),
        ];
        let first = 4 * i;
        let mut k: usize = 0;
        while k < 4
            invariant
                chain_fits(origin, num as nat),
                i < num,
                k <= 4,
                first == 4 * i,
                z == origin.z + 2 * LINK_SPACING * i + LINK_SPACING,
                positions@ == seq![
                    Vec3 { x: origin.x, y: origin.y, z },
                    Vec3 { x: (origin.x + LINK_SPACING) as i64, y: origin.y, z },
                    Vec3 { x: (origin.x + LINK_SPACING) as i64, y: origin.y, z: (z + LINK_SPACING) as i64 },
                    Vec3 { x: origin.x, y: origin.y, z: (z + LINK_SPACING) as i64 },
                ],
                bodies@ =~= chain_bodies(origin, i as nat) + Seq::new(k as nat, |c: int| chain_body(origin, 1 + 4 * i + c)),
                joints@ =~= chain_joints(i as nat),
            decreases 4 - k,
        {
            bodies.push(link_body(RigidKind::Dynamic, positions[k]));
            proof {
                let b = 1 + 4 * i + k;
                assert((b - 1) / 4 == i && (b - 1) % 4 == k) by (nonlinear_arith)
                    requires
                        b == 1 + 4 * i + k,
                        k < 4,
                        i >= 0,
                ;
                assert(bodies@ =~= chain_bodies(origin, i as nat) + Seq::new((k + 1) as nat, |c: int| chain_body(origin, 1 + 4 * i + c)));
            }
            k = k + 1;
        }
        joints.push(link_joint(first, Axis::Z, Vec3::new(0, 0, -LINK_SPACING)));
        joints.push(link_joint(first + 1, Axis::X, Vec3::new(-LINK_SPACING, 0, 0)));
        joints.push(link_joint(first + 2, Axis::Z, Vec3::new(0, 0, -LINK_SPACING)));
        joints.push(link_joint(first + 3, Axis::X, Vec3::new(LINK_SPACING, 0, 0)));
        proof {
            let f = 4 * i as int;
            assert(f % 4 == 0 && (f + 1) % 4 == 1 && (f + 2) % 4 == 2 && (f + 3) % 4 == 3) by (nonlinear_arith)
                requires
                    f == 4 * i,
            ;
            assert(joints@ =~= chain_joints((i + 1) as nat));
            assert(bodies@ =~= chain_bodies(origin, (i + 1) as nat));
        }
        i = i + 1;
        base = base + 2 * LINK_SPACING;
    }
    ArticulatedBody { bodies, joints }
}

/// A chain of `num` rings has the fixed anchor and `4 * num` dynamic cubes,
/// and `4 * num` joints: joint `j` hangs body `j + 1` on body `j`, so every
/// body but the anchor hangs on exactly one joint and the chain never
/// branches. Each ring is joined to the last cube of the ring before (or to
/// the anchor). The joints' anchors agree at spawn and every collider fits its
/// mesh.
pub proof fn chain_structure(origin: Vec3, num: nat)
    requires
        chain_fits(origin, num),
    ensures
        ({
            let bodies = chain_bodies(origin, num);
            let joints = chain_joints(num);
            &&& bodies.len() == 1 + 4 * num
            &&& joints.len() == 4 * num
            &&& well_formed(bodies, joints)
            &&& bodies[0].kind == RigidKind::Fixed
            &&& bodies[0].transform.translation == origin
            &&& forall|b: int| 0 < b < bodies.len() ==> (#[trigger] bodies[b]).kind == RigidKind::Dynamic
            &&& forall|j: int| 0 <= j < joints.len() ==> (#[trigger] joints[j]).parent == j && joints[j].child == j + 1
            &&& anchors_agree(bodies, joints)
            &&& shapes_consistent(bodies)
        }),
{
    let bodies = chain_bodies(origin, num);
    let joints = chain_joints(num);
    assert forall|j: int| 0 <= j < joints.len() implies
        world_point(bodies, joints[j].parent as int, joints[j].parent_anchor@)
            == world_point(bodies, joints[j].child as int, joints[j].child_anchor@) by {
        let r = j / 4;
        let c = j % 4;
        assert(j == 4 * r + c && 0 <= c < 4);
        assert(r < num);
        assert(2 * LINK_SPACING * r == 8000 * r);
        assert(2 * LINK_SPACING * num == 8000 * num);
        if j > 0 {
            if c == 0 {
                assert((j - 1) / 4 == r - 1 && (j - 1) % 4 == 3);
            } else {
                assert((j - 1) / 4 == r && (j - 1) % 4 == c - 1);
            }
        }
        assert(bodies[j] == chain_body(origin, j));
        assert(bodies[j + 1] == chain_body(origin, j + 1));
        assert(joints[j] == chain_joint(j));
        assert(joints[j].parent as int == j && joints[j].child as int == j + 1);
        let child = link_position(origin, j + 1);
        assert(child.x == origin.x + if c == 1 || c == 2 { 4000int } else { 0 });
        assert(child.y == origin.y);
        assert(child.z == origin.z + 8000 * r + 4000 + if c >= 2 { 4000int } else { 0 });
        let anchor = corner_child_anchor(c);
        let meet = world_point(bodies, j + 1, anchor@);
        assert(meet == add3(child@, anchor@));
        if j > 0 {
            let parent = link_position(origin, j);
            assert(world_point(bodies, j, (0int, 0int, 0int)) == parent@);
            if c == 0 {
                assert(parent.x == origin.x && parent.z == origin.z + 8000 * r);
            } else {
                assert(parent.z == origin.z + 8000 * r + 4000 + if c == 3 { 4000int } else { 0 });
            }
        }
    }
}

} // verus!

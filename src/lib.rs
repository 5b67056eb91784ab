//! Construction of articulated rigid bodies for a physics scene: a car made of
//! a chassis and four wheels on revolute joints, and a chain of four-body rings.
//!
//! All geometry is exact integer fixed point. Configured lengths are whole
//! millimetres; positions, extents and anchors are counted in half-millimetres,
//! so that half of any configured length is exact.
mod body;
mod car;
mod chain;
mod geometry;

pub use body::{
    anchors_agree, collider_matches_mesh, shapes_consistent, well_formed, world_point,
    ArticulatedBody, BodyDescriptor, Collider, JointDescriptor, Mesh, RigidKind,
};
pub use car::{
    build_car, build_car_deterministic, car_bodies, car_joints, car_structure, chassis_body,
    chassis_collider_halves_box, sign, wheel_body, wheel_joint, wheel_offset,
    wheel_offsets_distinct, wheel_sign_pairs, CarConfig, CarWheel, Wheel,
};
pub use chain::{
    chain_bodies, chain_body, chain_fits, chain_joint, chain_joints, chain_structure,
    corner_child_anchor, create_revolute_joints, link_collider, link_mesh, link_position,
    LINK_HALF_EXTENT, LINK_SPACING,
};
pub use geometry::{add3, Axis, Orientation, Transform, Vec3};

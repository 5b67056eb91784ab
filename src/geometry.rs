use vstd::prelude::*;

verus! {

/// A point or offset, in half-millimetres.
#[derive(Clone, Copy, Debug, PartialEq, Eq, Structural)]
pub struct Vec3 {
    pub x: i64,
    pub y: i64,
    pub z: i64,
}

impl Vec3 {
    pub open spec fn view(self) -> (int, int, int) {
        (self.x as int, self.y as int, self.z as int)
    }

    pub fn new(x: i64, y: i64, z: i64) -> (r: Vec3)
        ensures
            r.x == x && r.y == y && r.z == z,
    {
        Vec3 { x, y, z }
    }

    pub fn zero() -> (r: Vec3)
        ensures
            r@ == (0int, 0int, 0int),
    {
        Vec3 { x: 0, y: 0, z: 0 }
    }
}

/// Sum of two points of the model.
pub open spec fn add3(a: (int, int, int), b: (int, int, int)) -> (int, int, int) {
    (a.0 + b.0, a.1 + b.1, a.2 + b.2)
}

/// One of the three coordinate axes, as a unit direction.
#[derive(Clone, Copy, Debug, PartialEq, Eq, Structural)]
pub enum Axis {
    X,
    Y,
    Z,
}

impl Axis {
    /// The unit vector along the axis.
    pub open spec fn direction(self) -> (int, int, int) {
        match self {
            Axis::X => (1int, 0int, 0int),
            Axis::Y => (0int, 1int, 0int),
            Axis::Z => (0int, 0int, 1int),
        }
    }
}

/// The orientation of a body relative to the frame its transform lives in.
#[derive(Clone, Copy, Debug, PartialEq, Eq, Structural)]
pub enum Orientation {
    /// No rotation.
    Identity,
    /// A quarter turn (positive sense) about the x axis: y goes to z.
    QuarterTurnX,
}

impl Orientation {
    /// The image of `p` under the rotation.
    pub open spec fn rotate(self, p: (int, int, int)) -> (int, int, int) {
        match self {
            Orientation::Identity => p,
            Orientation::QuarterTurnX => (p.0, -p.2, p.1),
        }
    }
}

/// A rigid placement: rotate, then translate.
#[derive(Clone, Copy, Debug, PartialEq, Eq, Structural)]
pub struct Transform {
    pub translation: Vec3,
    pub rotation: Orientation,
}

impl Transform {
    /// Where the point `p`, given in the placed frame, lands in the outer frame.
    pub open spec fn apply(self, p: (int, int, int)) -> (int, int, int) {
        add3(self.translation@, self.rotation.rotate(p))
    }

    pub fn from_translation(translation: Vec3) -> (r: Transform)
        ensures
            r.translation == translation,
            r.rotation == Orientation::Identity,
    {
        Transform { translation, rotation: Orientation::Identity }
    }
}

} // verus!

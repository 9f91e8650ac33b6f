//! The transforms a frame is composed of, named by their parameters.
//!
//! A transform is described here, not evaluated: the description is exact,
//! and the 4x4 matrix that stands for it is built from it in floating point
//! by the program that draws.

use vstd::prelude::*;
use crate::units::{Angle, Milli, Vec3};

verus! {

/// One of the three principal axes of object space.
#[derive(Clone, Copy, Debug, PartialEq, Eq, Structural)]
pub enum Axis {
    X,
    Y,
    Z,
}

impl Axis {
    /// The position of the axis among the coordinates: 0 for `X`, 1 for `Y`, 2 for `Z`.
    pub open spec fn spec_index(self) -> int {
        match self {
            Axis::X => 0,
            Axis::Y => 1,
            Axis::Z => 2,
        }
    }

    /// The position of the axis among the coordinates of a vector.
    pub fn index(self) -> (i: usize)
        ensures
            i == self.spec_index(),
    {
        match self {
            Axis::X => 0,
            Axis::Y => 1,
            Axis::Z => 2,
        }
    }

    /// The two axes that a rotation about `self` turns, in the order in which
    /// a right-handed rotation by a quarter turn carries the first onto the
    /// second: the two that follow `self` in the cycle X, Y, Z, X.
    pub fn plane(self) -> (p: (Axis, Axis))
        ensures
            p.0.spec_index() == (self.spec_index() + 1) % 3,
            p.1.spec_index() == (self.spec_index() + 2) % 3,
    {
        match self {
            Axis::X => (Axis::Y, Axis::Z),
            Axis::Y => (Axis::Z, Axis::X),
            Axis::Z => (Axis::X, Axis::Y),
        }
    }
}

/// A homogeneous transform of object space, by the parameters that fix it.
#[derive(Clone, Copy, Debug, PartialEq, Eq, Structural)]
pub enum Transform {
    /// The camera: an eye at `position` looking along `direction`, with `up`
    /// fixing the roll.
    View { position: Vec3, direction: Vec3, up: Vec3 },
    /// A shift by `(x, y, z)`.
    Translation { x: Milli, y: Milli, z: Milli },
    /// A uniform scaling of the three coordinates by `factor`.
    Scale { factor: Milli },
    /// A right-handed rotation by `angle` about `axis`.
    Rotation { axis: Axis, angle: Angle },
}

/// A perspective projection, by the parameters that fix it.
///
/// The aspect ratio is height over width, and is kept as the two extents it
/// was read from, so that no division happens here.
#[derive(Clone, Copy, Debug, PartialEq, Eq, Structural)]
pub struct Perspective {
    pub aspect_height: u32,
    pub aspect_width: u32,
    pub fov: Angle,
    pub z_near: Milli,
    pub z_far: Milli,
}

} // verus!

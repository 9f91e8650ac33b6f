//! Exact quantities: decimal fixed-point numbers, angles as fractions of a
//! turn, and the triples and colours made of them.

use vstd::prelude::*;

verus! {

/// A decimal fixed-point number, held as a count of thousandths:
/// `Milli { thousandths: 800 }` is 0.8 and `Milli { thousandths: -900 }` is -0.9.
#[derive(Clone, Copy, Debug, PartialEq, Eq, Structural)]
pub struct Milli {
    pub thousandths: i32,
}

/// An angle, held as the fraction `numer / denom` of a full turn.
#[derive(Clone, Copy, Debug, PartialEq, Eq, Structural)]
pub struct Angle {
    pub numer: u64,
    pub denom: u64,
}

impl Angle {
    /// The fraction has a denominator, and the angle lies in the half-open
    /// interval from zero up to, but not including, one full turn.
    pub open spec fn within_turn(self) -> bool {
        self.numer < self.denom
    }
}

/// An ordered triple, read as a position, a direction or a colour depending
/// on where it stands.
#[derive(Clone, Copy, Debug, PartialEq, Eq, Structural)]
pub struct Vec3 {
    pub x: Milli,
    pub y: Milli,
    pub z: Milli,
}

/// A colour with its opacity, each channel between 0 and 1.
#[derive(Clone, Copy, Debug, PartialEq, Eq, Structural)]
pub struct Color {
    pub red: Milli,
    pub green: Milli,
    pub blue: Milli,
    pub alpha: Milli,
}

/// The number with the given count of thousandths.
pub open spec fn milli(thousandths: int) -> Milli
    recommends
        i32::MIN <= thousandths <= i32::MAX,
{
    Milli { thousandths: thousandths as i32 }
}

/// The triple with the given counts of thousandths.
pub open spec fn vec3(x: int, y: int, z: int) -> Vec3 {
    Vec3 { x: milli(x), y: milli(y), z: milli(z) }
}

} // verus!

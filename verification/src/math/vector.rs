use vstd::prelude::*;

use crate::math::scaled::{spec_from_int, spec_unit, Scaled};

verus! {

/// Componentwise sum of two mathematical vectors.
pub open spec fn vadd(a: (int, int), b: (int, int)) -> (int, int) {
    (a.0 + b.0, a.1 + b.1)
}

/// Componentwise difference of two mathematical vectors.
pub open spec fn vsub(a: (int, int), b: (int, int)) -> (int, int) {
    (a.0 - b.0, a.1 - b.1)
}

/// The vector with the two given raw fixed-point components.
pub open spec fn vraw(x: i32, y: i32) -> Vector {
    Vector { x: Scaled(x), y: Scaled(y) }
}

/// Defines a magnitude and direction in 2d space.
#[derive(Clone, Copy, Debug, PartialEq, Eq, Structural)]
pub struct Vector {
    pub x: Scaled,
    pub y: Scaled,
}

impl View for Vector {
    type V = (int, int);

    open spec fn view(&self) -> (int, int) {
        (self.x@, self.y@)
    }
}

impl Vector {
    pub fn zero() -> (r: Vector)
        ensures
            r@ == (0int, 0int),
    {
        Vector { x: Scaled::zero(), y: Scaled::zero() }
    }

    /// The vector whose components equal the two plain integers.
    pub fn from_int(x: i32, y: i32) -> (r: Vector)
        requires
            -32768 <= x <= 32767,
            -32768 <= y <= 32767,
        ensures
            r@ == (spec_from_int(x as int), spec_from_int(y as int)),
    {
        Vector { x: Scaled::from_int(x), y: Scaled::from_int(y) }
    }

    /// The vector built from two scaled components.
    pub fn from_scaled(x: Scaled, y: Scaled) -> (r: Vector)
        ensures
            r@ == (x@, y@),
    {
        Vector { x, y }
    }

    /// The vector in screen space: both components reduced to discrete units.
    pub fn screen(&self) -> (r: (i32, i32))
        ensures
            r.0 == spec_unit(self@.0),
            r.1 == spec_unit(self@.1),
    {
        (self.x.unit(), self.y.unit())
    }

    /// Componentwise vector sum.
    pub fn add(self, other: Vector) -> (r: Vector)
        requires
            i32::MIN <= self@.0 + other@.0 <= i32::MAX,
            i32::MIN <= self@.1 + other@.1 <= i32::MAX,
        ensures
            r@ == vadd(self@, other@),
    {
        Vector { x: self.x.add(other.x), y: self.y.add(other.y) }
    }

    /// Componentwise vector difference.
    pub fn sub(self, other: Vector) -> (r: Vector)
        requires
            i32::MIN <= self@.0 - other@.0 <= i32::MAX,
            i32::MIN <= self@.1 - other@.1 <= i32::MAX,
        ensures
            r@ == vsub(self@, other@),
    {
        Vector { x: self.x.sub(other.x), y: self.y.sub(other.y) }
    }
}

/// Subtracting in both orders gives a vector and its inverse, so their sum is
/// the zero vector; and the zero vector is the additive identity.
pub proof fn lemma_vector_add_identity_inverse(a: (int, int), b: (int, int))
    ensures
        vadd(vsub(a, b), vsub(b, a)) == (0int, 0int),
        vadd(a, (0int, 0int)) == a,
{
}

} // verus!

use vstd::prelude::*;

use crate::math::vector::Vector;

verus! {

/// Axis-Aligned Bounding Box, defined by its two extreme corners.
#[derive(Clone, Copy, Debug, PartialEq, Eq, Structural)]
pub struct BoundingBox {
    pub min: Vector,
    pub max: Vector,
}

impl BoundingBox {
    pub fn new(min: Vector, max: Vector) -> (r: BoundingBox)
        ensures
            r.min == min,
            r.max == max,
    {
        BoundingBox { min, max }
    }
}

} // verus!

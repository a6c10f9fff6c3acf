use vstd::prelude::*;

use crate::math::collision::BoundingBox;
use crate::math::vector::Vector;

verus! {

/// The `Collision` component gives an entity a local bounding box, kept in
/// entity-local coordinates and added to the entity's position for testing.
#[derive(Clone, Copy, Debug, PartialEq, Eq, Structural)]
pub struct Collision {
    pub bounds: BoundingBox,
}

impl Collision {
    pub fn new(pos: Vector, dim: Vector) -> (r: Collision)
        ensures
            r.bounds.pos == pos,
            r.bounds.dim == dim,
    {
        Collision { bounds: BoundingBox::new(pos, dim) }
    }
}

} // verus!

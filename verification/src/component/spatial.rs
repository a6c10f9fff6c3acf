use vstd::prelude::*;

use crate::math::scaled::spec_from_int;
use crate::math::vector::Vector;

verus! {

/// The `Spatial` component defines a location in space: the authoritative
/// world position of an entity.
#[derive(Clone, Copy, Debug, PartialEq, Eq, Structural)]
pub struct Spatial(pub Vector);

impl Spatial {
    pub fn new(x: i32, y: i32) -> (r: Spatial)
        requires
            -32768 <= x <= 32767,
            -32768 <= y <= 32767,
        ensures
            r.0@ == (spec_from_int(x as int), spec_from_int(y as int)),
    {
        Spatial(Vector::from_int(x, y))
    }
}

} // verus!

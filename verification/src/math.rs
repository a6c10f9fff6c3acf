use vstd::prelude::*;

pub mod aabb;
pub mod collision;
pub mod scaled;
pub mod vector;

verus! {

/// A vector of discrete screen-space units, as produced by projecting a
/// world-space vector onto the pixel grid.
#[derive(Clone, Copy, Debug, PartialEq, Eq, Structural)]
pub struct Vector(pub i32, pub i32);

} // verus!

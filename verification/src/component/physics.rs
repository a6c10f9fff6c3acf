use vstd::prelude::*;

use crate::math::scaled::spec_from_int;
use crate::math::vector::Vector;

verus! {

/// The `Physics` component allows forces to be applied.
#[derive(Clone, Copy, Debug, PartialEq, Eq, Structural)]
pub struct Physics {
    /// Current velocity, integrated every tick.
    pub vel: Vector,
    /// Maximum horizontal locomotion speed, applied directly as a positional
    /// offset while walking, not accumulated into `vel`.
    pub speed: i32,
}

impl Physics {
    pub fn new(x: i32, y: i32) -> (r: Physics)
        requires
            -32768 <= x <= 32767,
            -32768 <= y <= 32767,
        ensures
            r.vel@ == (spec_from_int(x as int), spec_from_int(y as int)),
            r.speed == 100,
    {
        Physics { vel: Vector::from_int(x, y), speed: 100 }
    }
}

} // verus!

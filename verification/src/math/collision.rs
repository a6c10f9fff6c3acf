use vstd::math::abs;
use vstd::prelude::*;

use crate::math::scaled::Scaled;
use crate::math::vector::{vadd, Vector};

verus! {

/// Every coordinate the collision code computes with stays below this bound,
/// which keeps all the intermediate `i32` arithmetic of the overlap test and
/// of collision resolution free of overflow.
pub open spec fn coord_bounded(v: int) -> bool {
    -0x10000000 <= v <= 0x10000000
}

/// Both components of a mathematical vector are within `coord_bounded`.
pub open spec fn vec_bounded(v: (int, int)) -> bool {
    coord_bounded(v.0) && coord_bounded(v.1)
}

/// Defines the resulting 'Hit' for a collision check.
#[derive(Clone, Copy, Debug, PartialEq, Eq, Structural)]
pub struct Hit {
    /// Point of contact.
    pub pos: Vector,
    /// Overlap between two objects.
    pub delta: Vector,
    /// Surface normal at the point of contact.
    pub normal: Vector,
}

impl View for Hit {
    type V = ((int, int), (int, int), (int, int));

    open spec fn view(&self) -> ((int, int), (int, int), (int, int)) {
        (self.pos@, self.delta@, self.normal@)
    }
}

/// The view of an optional hit, for stating what `overlap` returns.
pub open spec fn hit_view_opt(r: Option<Hit>) -> Option<((int, int), (int, int), (int, int))> {
    match r {
        Some(h) => Some(h@),
        None => None,
    }
}

/// Axis-Aligned Bounding Box
///
/// Defined by a single point, and its dimensions (half size for each axis)
#[derive(Clone, Copy, Debug, PartialEq, Eq, Structural)]
pub struct BoundingBox {
    pub pos: Vector,
    pub dim: Vector,
}

impl View for BoundingBox {
    type V = ((int, int), (int, int));

    open spec fn view(&self) -> ((int, int), (int, int)) {
        (self.pos@, self.dim@)
    }
}

/// What the separating-axis overlap test returns for two boxes, over their
/// mathematical views `(pos, dim)`.
///
/// Overlap exists exactly when the penetration is positive on both axes;
/// resolution happens along the axis of least penetration, and the Y axis is
/// preferred when the penetrations are equal (the deterministic tie-break).
/// The normal carries one scaled unit (`65536` raw fractions) on the resolved
/// axis, signed toward the other box's side.
pub open spec fn overlap_spec(a: ((int, int), (int, int)), b: ((int, int), (int, int))) -> Option<
    ((int, int), (int, int), (int, int)),
> {
    let dx = b.0.0 - a.0.0;
    let px = (b.1.0 + a.1.0) - abs(dx);
    let dy = b.0.1 - a.0.1;
    let py = (b.1.1 + a.1.1) - abs(dy);
    if px <= 0 || py <= 0 {
        None
    } else if px < py {
        if dx > 0 {
            Some(((a.0.0 + a.1.0, b.0.1), (px, 0), (65536, 0)))
        } else {
            Some(((a.0.0 - a.1.0, b.0.1), (-px, 0), (-65536, 0)))
        }
    } else {
        if dy > 0 {
            Some(((b.0.0, a.0.1 + a.1.1), (0, py), (0, 65536)))
        } else {
            Some(((b.0.0, a.0.1 - a.1.1), (0, -py), (0, -65536)))
        }
    }
}

impl BoundingBox {
    /// All four stored coordinates are within the collision range.
    pub open spec fn bounded(self) -> bool {
        vec_bounded(self@.0) && vec_bounded(self@.1)
    }

    pub fn new(pos: Vector, dim: Vector) -> (r: BoundingBox)
        ensures
            r.pos == pos,
            r.dim == dim,
    {
        BoundingBox { pos, dim }
    }

    /// The separating-axis overlap test: nothing when the boxes do not
    /// overlap, otherwise the contact point, the penetration delta that
    /// separates `self` from `other`, and the surface normal.
    pub fn overlap(&self, other: &BoundingBox) -> (r: Option<Hit>)
        requires
            self.bounded(),
            other.bounded(),
        ensures
            hit_view_opt(r) == overlap_spec(self@, other@),
    {
        let dx = other.pos.x.sub(self.pos.x);
        let px = (other.dim.x.add(self.dim.x)).sub(dx.abs());

        if !px.is_positive() {
            return None;
        }

        let dy = other.pos.y.sub(self.pos.y);
        let py = (other.dim.y.add(self.dim.y)).sub(dy.abs());
        if !py.is_positive() {
            return None;
        }

        if px.0 < py.0 {
            if dx.is_positive() {
                Some(
                    Hit {
                        pos: Vector::from_scaled(self.pos.x.add(self.dim.x), other.pos.y),
                        delta: Vector::from_scaled(px, Scaled::zero()),
                        normal: Vector::from_scaled(Scaled::from_int(1), Scaled::zero()),
                    },
                )
            } else {
                Some(
                    Hit {
                        pos: Vector::from_scaled(self.pos.x.sub(self.dim.x), other.pos.y),
                        delta: Vector::from_scaled(px.neg(), Scaled::zero()),
                        normal: Vector::from_scaled(Scaled::from_int(-1), Scaled::zero()),
                    },
                )
            }
        } else {
            if dy.is_positive() {
                Some(
                    Hit {
                        pos: Vector::from_scaled(other.pos.x, self.pos.y.add(self.dim.y)),
                        delta: Vector::from_scaled(Scaled::zero(), py),
                        normal: Vector::from_scaled(Scaled::zero(), Scaled::from_int(1)),
                    },
                )
            } else {
                Some(
                    Hit {
                        pos: Vector::from_scaled(other.pos.x, self.pos.y.sub(self.dim.y)),
                        delta: Vector::from_scaled(Scaled::zero(), py.neg()),
                        normal: Vector::from_scaled(Scaled::zero(), Scaled::from_int(-1)),
                    },
                )
            }
        }
    }

    /// The box translated by a vector: the position moves, the half-extents
    /// are unaffected.
    pub fn offset(self, v: Vector) -> (r: BoundingBox)
        requires
            i32::MIN <= self@.0.0 + v@.0 <= i32::MAX,
            i32::MIN <= self@.0.1 + v@.1 <= i32::MAX,
        ensures
            r@ == (vadd(self@.0, v@), self@.1),
    {
        BoundingBox { pos: self.pos.add(v), dim: self.dim }
    }
}

/// Boxes whose projections do not overlap on some axis never collide: if the
/// center distance on either axis is at least the sum of the half-extents on
/// that axis, the overlap test returns nothing, in both call orders.
pub proof fn lemma_no_overlap(a: ((int, int), (int, int)), b: ((int, int), (int, int)))
    requires
        abs(b.0.0 - a.0.0) >= b.1.0 + a.1.0 || abs(b.0.1 - a.0.1) >= b.1.1 + a.1.1,
    ensures
        overlap_spec(a, b) is None,
        overlap_spec(b, a) is None,
{
}

/// A hit's penetration delta never exceeds the sum of the half-extents on
/// its axis, and its normal components are zero or one scaled unit.
pub proof fn lemma_overlap_hit_bounds(a: ((int, int), (int, int)), b: ((int, int), (int, int)))
    requires
        overlap_spec(a, b) is Some,
    ensures
        ({
            let h = overlap_spec(a, b)->Some_0;
            &&& abs(h.1.0) <= a.1.0 + b.1.0
            &&& abs(h.1.1) <= a.1.1 + b.1.1
            &&& abs(h.2.0) <= 65536
            &&& abs(h.2.1) <= 65536
        }),
{
}

/// When the overlap test reports a hit, the boxes really do intersect under
/// the brute-force axis check: on both axes the center distance is strictly
/// smaller than the sum of the half-extents.
pub proof fn lemma_overlap_intersects(a: ((int, int), (int, int)), b: ((int, int), (int, int)))
    requires
        overlap_spec(a, b) is Some,
    ensures
        abs(b.0.0 - a.0.0) < b.1.0 + a.1.0,
        abs(b.0.1 - a.0.1) < b.1.1 + a.1.1,
{
}

} // verus!

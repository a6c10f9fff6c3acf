use spellthief::math::collision::BoundingBox;
use spellthief::math::scaled::Scaled;
use spellthief::math::vector::Vector;

#[test]
fn vector_ops() {
    let a = Vector::from_int(1, 2);
    let b = Vector::from_int(2, 1);
    let c = Vector::from_int(1, -1);

    assert_eq!(a.sub(b).add(c), Vector::zero());
    assert_eq!(a.sub(b).add(c), Vector::zero());
}

#[test]
fn vector_zero_identity() {
    let a = Vector::from_int(17, -4);
    assert_eq!(a.add(Vector::zero()), a);
    assert_eq!(a.sub(Vector::from_int(3, 3)).add(Vector::from_int(3, 3).sub(a)), Vector::zero());
}

#[test]
fn bounding_box_overlap() {
    let a = BoundingBox::new(Vector::from_int(5, 5), Vector::from_int(5, 5));
    let b = BoundingBox::new(Vector::from_int(-15, -15), Vector::from_int(5, 5));
    let c = BoundingBox::new(Vector::from_int(-5, -5), Vector::from_int(10, 10));

    assert_eq!(a.overlap(&b), None);
    assert_eq!(b.overlap(&a), None);
    assert!(a.overlap(&c).is_some());
    assert!(b.overlap(&c).is_some());
}

#[test]
fn bounding_box_offset() {
    let a = BoundingBox::new(Vector::from_int(-5, 0), Vector::from_int(5, 5));
    let b = BoundingBox::new(Vector::from_int(5, 0), Vector::from_int(5, 5));

    assert_eq!(a.overlap(&b), None);

    let offset = Vector::from_int(8, 0);

    assert!(a.offset(offset).overlap(&b).is_some());
}

#[test]
fn bounding_box_normal() {
    let a = BoundingBox::new(Vector::from_int(0, 5), Vector::from_int(3, 3));
    let b = BoundingBox::new(Vector::from_int(0, 0), Vector::from_int(3, 3));

    let hit = a.overlap(&b).expect("a.overlap(b)");

    assert_eq!(hit.normal.y, Scaled::from_int(-1));
}

#[test]
fn overlap_hit_is_real_intersection() {
    // a reported hit means the brute-force axis check agrees on both axes
    let a = BoundingBox::new(Vector::from_int(0, 0), Vector::from_int(4, 4));
    let b = BoundingBox::new(Vector::from_int(6, 1), Vector::from_int(3, 3));

    assert!(a.overlap(&b).is_some());
    let dx = (b.pos.x.sub(a.pos.x)).abs();
    let dy = (b.pos.y.sub(a.pos.y)).abs();
    assert!(dx.0 < a.dim.x.add(b.dim.x).0);
    assert!(dy.0 < a.dim.y.add(b.dim.y).0);
}

#[test]
fn overlap_resolves_least_penetration() {
    // deeper on Y than on X: the hit resolves along X
    let a = BoundingBox::new(Vector::from_int(0, 0), Vector::from_int(4, 4));
    let b = BoundingBox::new(Vector::from_int(6, 1), Vector::from_int(3, 3));

    let hit = a.overlap(&b).expect("a.overlap(b)");
    assert_eq!(hit.normal.x, Scaled::from_int(1));
    assert_eq!(hit.normal.y, Scaled::zero());
    assert_eq!(hit.delta.x, Scaled::from_int(1));
    assert_eq!(hit.delta.y, Scaled::zero());
}

#[test]
fn scaled_round_trip() {
    for v in [-32768, -1000, -1, 0, 1, 7, 255, 32767] {
        assert_eq!(Scaled::from_int(v).unit(), v);
    }
}

#[test]
fn scaled_new_formula() {
    // (98 << 16) / 10 with truncating division
    assert_eq!(Scaled::new(98, 1).0, 642252);
    assert_eq!(Scaled::new(200, 0).0, 13107200);
    assert_eq!(Scaled::new(-98, 1).0, -642252);
    assert_eq!(Scaled::new(1, 0), Scaled::from_int(1));
}

#[test]
fn scaled_unit_rounds_down() {
    assert_eq!(Scaled(65535).unit(), 0);
    assert_eq!(Scaled(-1).unit(), -1);
    assert_eq!(Scaled(-65536).unit(), -1);
    assert_eq!(Scaled(-65537).unit(), -2);
}

#[test]
fn scaled_predicates() {
    assert!(Scaled::zero().is_zero());
    assert!(Scaled::from_int(2).is_positive());
    assert!(Scaled::from_int(-2).is_negative());
    assert_eq!(Scaled::from_int(-2).abs(), Scaled::from_int(2));
    assert_eq!(Scaled::from_int(5).min(Scaled::from_int(3)), Scaled::from_int(3));
    assert_eq!(Scaled::from_int(5).max(Scaled::from_int(3)), Scaled::from_int(5));
    assert_eq!(Scaled::from_int(6).div_int(4).0, 6 * 65536 / 4);
    assert_eq!(Scaled::from_int(2).scale(3), Scaled::from_int(6));
    assert_eq!(Scaled::from_int(2).neg(), Scaled::from_int(-2));
}

#[test]
fn degenerate_boxes_do_not_overlap() {
    // zero half-extents give zero penetration, reported as no overlap
    let a = BoundingBox::new(Vector::from_int(0, 0), Vector::from_int(0, 0));
    let b = BoundingBox::new(Vector::from_int(0, 0), Vector::from_int(0, 0));
    assert_eq!(a.overlap(&b), None);
}

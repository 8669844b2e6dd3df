use geom_kernel::BoundingBox;
use geom_kernel::Scalar;
use geom_kernel::Vec2;

fn bfin(v: i64) -> Scalar {
    Scalar::Fin(v)
}

fn bpt(x: i64, y: i64) -> Vec2 {
    Vec2 { x: bfin(x), y: bfin(y) }
}

fn bbox(l: i64, t: i64, r: i64, b: i64) -> BoundingBox {
    BoundingBox { l: bfin(l), t: bfin(t), r: bfin(r), b: bfin(b) }
}

#[test]
fn constructors() {
    assert_eq!(BoundingBox::zero(), bbox(0, 0, 0, 0));
    let n = BoundingBox::null();
    assert_eq!(n.l, Scalar::PosInf);
    assert_eq!(n.t, Scalar::PosInf);
    assert_eq!(n.r, Scalar::NegInf);
    assert_eq!(n.b, Scalar::NegInf);
    let i = BoundingBox::infinite();
    assert_eq!(i.l, Scalar::NegInf);
    assert_eq!(i.t, Scalar::NegInf);
    assert_eq!(i.r, Scalar::PosInf);
    assert_eq!(i.b, Scalar::PosInf);
}

#[test]
fn union_with_null_is_identity() {
    let a = bbox(-3, 1, 4, 9);
    assert_eq!(a.add_box(BoundingBox::null()), a);
    assert_eq!(BoundingBox::null().add_box(a), a);
    assert_eq!(
        BoundingBox::null().add_box(BoundingBox::null()),
        BoundingBox::null()
    );
}

#[test]
fn union_with_infinite_absorbs() {
    let a = bbox(-3, 1, 4, 9);
    assert_eq!(a.add_box(BoundingBox::infinite()), BoundingBox::infinite());
    assert_eq!(BoundingBox::infinite().add_box(a), BoundingBox::infinite());
    assert_eq!(
        BoundingBox::null().add_box(BoundingBox::infinite()),
        BoundingBox::infinite()
    );
}

#[test]
fn point_accumulation_commutes() {
    let p1 = bpt(3, -8);
    let p2 = bpt(-5, 12);
    let one = BoundingBox::null().add_point(&p1).add_point(&p2);
    let two = BoundingBox::null().add_point(&p2).add_point(&p1);
    assert_eq!(one, two);
    assert_eq!(one, bbox(-5, -8, 3, 12));
}

#[test]
fn union_of_boxes_commutes() {
    let a = bbox(-3, 1, 4, 9);
    let b = bbox(0, -2, 10, 3);
    assert_eq!(a.add_box(b), b.add_box(a));
    assert_eq!(a.add_box(b), bbox(-3, -2, 10, 9));
}

#[test]
fn add_assign_forms_match_value_forms() {
    let a = bbox(-3, 1, 4, 9);
    let b = bbox(0, -2, 10, 3);
    let mut m = a;
    m.add_assign_box(b);
    assert_eq!(m, a.add_box(b));
    let p = bpt(99, -50);
    let mut n = a;
    n.add_assign_point(&p);
    assert_eq!(n, a.add_point(&p));
}

#[test]
fn union_never_shrinks() {
    let a = bbox(-3, 1, 4, 9);
    let inner = bpt(0, 5);
    assert_eq!(a.add_point(&inner), a);
}

#[test]
fn width_height_size() {
    let a = bbox(-3, 1, 4, 9);
    assert_eq!(a.width(), bfin(7));
    assert_eq!(a.height(), bfin(8));
    assert_eq!(a.size(), bpt(7, 8));
    // The null box has negatively infinite extent.
    assert_eq!(BoundingBox::null().width(), Scalar::NegInf);
    assert_eq!(BoundingBox::infinite().width(), Scalar::PosInf);
}

#[test]
fn center_is_midpoint() {
    let a = bbox(0, 0, 10, 4);
    assert_eq!(a.center_x(), bfin(5));
    assert_eq!(a.center_y(), bfin(2));
    assert_eq!(a.center(), bpt(5, 2));
    // The exact kernel truncates the odd midpoint toward zero.
    assert_eq!(bbox(0, 0, 10, 5).center_y(), bfin(2));
}

#[test]
fn scale_multiplies_all_bounds_about_origin() {
    let mut a = bbox(1, 2, 3, 4);
    a.scale(bfin(2));
    assert_eq!(a, bbox(2, 4, 6, 8));
    let mut b = bbox(-1, -2, 3, 4);
    b.scale(bfin(-1));
    assert_eq!(b, bbox(1, 2, -3, -4));
}

#[test]
fn scale_null_by_zero_is_indeterminate() {
    // Zero times an infinite bound is Nan, as in floating arithmetic.
    let mut n = BoundingBox::null();
    n.scale(bfin(0));
    assert_eq!(n.l, Scalar::Nan);
    assert_eq!(n.r, Scalar::Nan);
}

use geom_kernel::BoundingBox;
use geom_kernel::Drawing;
use geom_kernel::GeometryObject;
use geom_kernel::Scalar;
use geom_kernel::Vec2;

fn gfin(v: i64) -> Scalar {
    Scalar::Fin(v)
}

fn gpt(x: i64, y: i64) -> Vec2 {
    Vec2 { x: gfin(x), y: gfin(y) }
}

fn gbox(l: i64, t: i64, r: i64, b: i64) -> BoundingBox {
    BoundingBox { l: gfin(l), t: gfin(t), r: gfin(r), b: gfin(b) }
}

fn arc(cx: i64, cy: i64, radius: i64, start: i64, sweep: i64, beg: Vec2, end: Vec2) -> GeometryObject {
    GeometryObject::Arc {
        center: gpt(cx, cy),
        radius: gfin(radius),
        start,
        sweep,
        beg,
        end,
    }
}

#[test]
fn segment_bounding_box() {
    let s = GeometryObject::Segment { beg: gpt(0, 0), end: gpt(10, 5) };
    assert_eq!(s.bounding_box(), gbox(0, 0, 10, 5));
}

#[test]
fn segment_bounding_box_reversed_endpoints() {
    let s = GeometryObject::Segment { beg: gpt(10, 5), end: gpt(0, 0) };
    assert_eq!(s.bounding_box(), gbox(0, 0, 10, 5));
}

#[test]
fn circle_bounding_box() {
    let c = GeometryObject::Circle { center: gpt(0, 0), radius: gfin(2) };
    assert_eq!(c.bounding_box(), gbox(-2, -2, 2, 2));
}

#[test]
fn circle_bounding_box_off_origin() {
    let c = GeometryObject::Circle { center: gpt(10, -3), radius: gfin(4) };
    assert_eq!(c.bounding_box(), gbox(6, -7, 14, 1));
}

#[test]
fn polyline_bounding_box() {
    let p = GeometryObject::PolyLine { points: vec![gpt(1, 2), gpt(3, -1), gpt(-2, 0)] };
    assert_eq!(p.bounding_box(), gbox(-2, -1, 3, 2));
}

#[test]
fn polyline_bounding_box_order_does_not_matter() {
    let p = GeometryObject::PolyLine { points: vec![gpt(1, 2), gpt(3, -1), gpt(-2, 0)] };
    let q = GeometryObject::PolyLine { points: vec![gpt(-2, 0), gpt(1, 2), gpt(3, -1)] };
    assert_eq!(p.bounding_box(), q.bounding_box());
}

#[test]
fn empty_polyline_bounding_box_is_null() {
    let p = GeometryObject::PolyLine { points: vec![] };
    assert_eq!(p.bounding_box().l, Scalar::PosInf);
    assert_eq!(p.bounding_box().r, Scalar::NegInf);
}

#[test]
fn arc_quarter_turn_extends_one_side() {
    // From 45 to 135 degrees the arc crosses one boundary from quadrant
    // index zero, so the side at 0 degrees is pushed to the circle.
    let a = arc(0, 0, 10, 45, 90, gpt(7, 7), gpt(-7, 7));
    assert_eq!(a.bounding_box(), gbox(-7, 7, 10, 7));
}

#[test]
fn arc_three_quarters_extends_three_sides() {
    // A sweep past half a turn is counted from the true signed sweep, not
    // from the angle between the endpoint directions.
    let a = arc(0, 0, 10, 0, 270, gpt(10, 0), gpt(0, -10));
    assert_eq!(a.bounding_box(), gbox(-10, -10, 10, 0));
}

#[test]
fn arc_full_turn_gives_circle_bounds() {
    let a = arc(0, 0, 10, 30, 360, gpt(8, 5), gpt(8, 5));
    assert_eq!(a.bounding_box(), gbox(-10, -10, 10, 10));
}

#[test]
fn arc_negative_sweep_walks_from_far_endpoint() {
    // Clockwise from 90 back to 0 covers the same quarter as
    // counterclockwise from 0 to 90.
    let a = arc(0, 0, 10, 90, -90, gpt(0, 10), gpt(10, 0));
    assert_eq!(a.bounding_box(), gbox(0, 0, 10, 10));
    let ccw = arc(0, 0, 10, 0, 90, gpt(10, 0), gpt(0, 10));
    assert_eq!(ccw.bounding_box(), a.bounding_box());
}

#[test]
fn arc_short_sweep_keeps_endpoint_box() {
    let a = arc(0, 0, 10, 10, 40, gpt(9, 1), gpt(6, 7));
    assert_eq!(a.bounding_box(), gbox(6, 1, 9, 7));
}

#[test]
fn arc_negative_start_is_normalized() {
    // Minus 45 degrees lies in quadrant index three, whose boundary
    // extends the bottom bound.
    let a = arc(0, 0, 10, -45, 90, gpt(7, -7), gpt(7, 7));
    assert_eq!(a.bounding_box(), gbox(7, -7, 7, 10));
}

#[test]
fn bounding_box_round_trip_is_deterministic() {
    let a = arc(0, 0, 10, 45, 90, gpt(7, 7), gpt(-7, 7));
    assert_eq!(a.bounding_box(), a.bounding_box());
    let s = GeometryObject::Segment { beg: gpt(0, 0), end: gpt(10, 5) };
    assert_eq!(s.bounding_box(), s.bounding_box());
}

#[test]
fn drawing_accumulates_boxes() {
    let s = GeometryObject::Segment { beg: gpt(0, 0), end: gpt(10, 5) };
    let c = GeometryObject::Circle { center: gpt(20, 20), radius: gfin(2) };
    let d = Drawing::from_obs(vec![s, c]);
    assert_eq!(d.calc_bounding_box(), gbox(0, 0, 22, 22));
}

#[test]
fn empty_drawing_box_is_null() {
    let d = Drawing::new();
    let bb = d.calc_bounding_box();
    assert_eq!(bb.l, Scalar::PosInf);
    assert_eq!(bb.b, Scalar::NegInf);
}

#[test]
fn drawing_add_object_extends_scene() {
    let mut d = Drawing::new();
    d.add_object(GeometryObject::Segment { beg: gpt(0, 0), end: gpt(1, 1) });
    d.add_object(GeometryObject::Segment { beg: gpt(5, -2), end: gpt(6, 0) });
    assert_eq!(d.objects().len(), 2);
    assert_eq!(d.calc_bounding_box(), gbox(0, -2, 6, 1));
}

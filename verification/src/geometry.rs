use vstd::prelude::*;
use vstd::arithmetic::div_mod::lemma_fundamental_div_mod;
use vstd::arithmetic::div_mod::lemma_mod_bound;
use vstd::arithmetic::div_mod::lemma_mod_multiples_vanish;
use vstd::arithmetic::div_mod::lemma_small_mod;

use crate::bounding_box::BoundingBox;
use crate::bounding_box::lemma_add_point_contains;
use crate::scalar::Scalar;
use crate::scalar::mag;
use crate::vec::Vec2;

verus! {

/// A drawable primitive: a closed set of variants, dispatched by
/// exhaustive matching.
///
/// Angles are whole degrees, measured from the positive horizontal axis;
/// `sweep` is signed, positive for the counterclockwise sense of the angle
/// coordinate. The kernel is exact and cannot evaluate trigonometry, so an
/// arc also carries its two endpoints `beg` and `end` as plain
/// coordinates; the importing layer, which owns the inexact trigonometry,
/// supplies them as `center + radius * (cos a, sin a)` at the start and end
/// angles.
#[derive(Debug)]
pub enum GeometryObject {
    Segment { beg: Vec2, end: Vec2 },
    Circle { center: Vec2, radius: Scalar },
    Arc { center: Vec2, radius: Scalar, start: i64, sweep: i64, beg: Vec2, end: Vec2 },
    PolyLine { points: Vec<Vec2> },
}

/// How many quadrant boundaries the arc's angular span crosses:
/// a quarter turn for each full 90 degrees of sweep, and every boundary
/// once when the sweep reaches a full turn. The span is taken from the
/// true signed sweep, not from the angle between the endpoint directions,
/// which could not tell a long arc from its complement.
pub open spec fn arc_quadrant_count(sweep: int) -> int {
    if mag(sweep) >= 360 {
        4
    } else {
        mag(sweep) / 90
    }
}

/// The start angle of the arc traversed counterclockwise — for a negative
/// sweep that is the far endpoint — normalized into [0, 360).
pub open spec fn arc_start_norm(start: int, sweep: int) -> int {
    (if sweep >= 0 {
        start
    } else {
        start + sweep
    }) % 360
}

/// The index of the quadrant holding the normalized start angle.
pub open spec fn arc_start_quadrant(start: int, sweep: int) -> int {
    arc_start_norm(start, sweep) / 90
}

/// Extends exactly one side of the box to the circle's extremum on that
/// side. Side 0 is the boundary at 0 degrees, and each following side is a
/// quarter turn further along the angle coordinate.
pub open spec fn extend_side(bb: BoundingBox, center: Vec2, radius: Scalar, side: int) -> BoundingBox {
    if side == 0 {
        BoundingBox { l: bb.l, t: bb.t, r: center.x.spec_add(radius), b: bb.b }
    } else if side == 1 {
        BoundingBox { l: bb.l, t: center.y.spec_sub(radius), r: bb.r, b: bb.b }
    } else if side == 2 {
        BoundingBox { l: center.x.spec_sub(radius), t: bb.t, r: bb.r, b: bb.b }
    } else {
        BoundingBox { l: bb.l, t: bb.t, r: bb.r, b: center.y.spec_add(radius) }
    }
}

/// Extends the `n` sides crossed by the arc, cyclically from the quadrant
/// index `idx`.
pub open spec fn extend_quadrants(
    bb: BoundingBox,
    center: Vec2,
    radius: Scalar,
    idx: int,
    n: nat,
) -> BoundingBox
    decreases n,
{
    if n == 0 {
        bb
    } else {
        extend_side(
            extend_quadrants(bb, center, radius, idx, (n - 1) as nat),
            center,
            radius,
            (idx + n - 1) % 4,
        )
    }
}

/// The union of a box with every point of a sequence, in order.
pub open spec fn fold_points(bb: BoundingBox, pts: Seq<Vec2>) -> BoundingBox
    decreases pts.len(),
{
    if pts.len() == 0 {
        bb
    } else {
        fold_points(bb, pts.drop_last()).spec_add_point(pts.last())
    }
}

impl GeometryObject {
    /// The tight axis-aligned bounding box of the primitive, accumulated
    /// from the null box.
    ///
    /// A segment takes the union of its endpoints, a circle of the two
    /// corners `center - (r, r)` and `center + (r, r)`, a polyline of
    /// every point in order. An arc takes the union of its endpoints and
    /// then extends one side per crossed quadrant boundary; for a sweep of
    /// a full turn or more every side is extended, the full-circle bounds.
    pub open spec fn spec_bounding_box(self) -> BoundingBox {
        match self {
            GeometryObject::Segment { beg, end } => BoundingBox::spec_null().spec_add_point(
                beg,
            ).spec_add_point(end),
            GeometryObject::Circle { center, radius } => BoundingBox::spec_null().spec_add_point(
                Vec2 { x: center.x.spec_sub(radius), y: center.y.spec_sub(radius) },
            ).spec_add_point(
                Vec2 { x: center.x.spec_add(radius), y: center.y.spec_add(radius) },
            ),
            GeometryObject::Arc { center, radius, start, sweep, beg, end } => extend_quadrants(
                BoundingBox::spec_null().spec_add_point(beg).spec_add_point(end),
                center,
                radius,
                arc_start_quadrant(start as int, sweep as int),
                arc_quadrant_count(sweep as int) as nat,
            ),
            GeometryObject::PolyLine { points } => fold_points(BoundingBox::spec_null(), points@),
        }
    }

    /// Derives the bounding box; a pure read of the primitive, so that two
    /// derivations from the same value agree.
    pub fn bounding_box(&self) -> (bb: BoundingBox)
        ensures
            bb == self.spec_bounding_box(),
    {
        let mut bb = BoundingBox::null();
        match self {
            GeometryObject::Segment { beg, end } => {
                bb.add_assign_point(beg);
                bb.add_assign_point(end);
            },
            GeometryObject::Circle { center, radius } => {
                bb.add_assign_point(&Vec2 { x: center.x.sub(*radius), y: center.y.sub(*radius) });
                bb.add_assign_point(&Vec2 { x: center.x.add(*radius), y: center.y.add(*radius) });
            },
            GeometryObject::Arc { center, radius, start, sweep, beg, end } => {
                bb.add_assign_point(beg);
                bb.add_assign_point(end);
                let ghost base = bb;
                let (idx, cnt) = arc_quadrant_data(*start, *sweep);
                let mut i: u64 = 0;
                while i < cnt
                    invariant
                        cnt <= 4,
                        idx <= 3,
                        i <= cnt,
                        idx as int == arc_start_quadrant(*start as int, *sweep as int),
                        cnt as int == arc_quadrant_count(*sweep as int),
                        bb == extend_quadrants(base, *center, *radius, idx as int, i as nat),
                    decreases cnt - i,
                {
                    let ghost prev = bb;
                    let side: u64 = (idx + i) % 4;
                    if side == 0 {
                        bb.r = center.x.add(*radius);
                    } else if side == 1 {
                        bb.t = center.y.sub(*radius);
                    } else if side == 2 {
                        bb.l = center.x.sub(*radius);
                    } else {
                        bb.b = center.y.add(*radius);
                    }
                    proof {
                        assert(bb == extend_side(prev, *center, *radius, side as int));
                        assert(extend_quadrants(base, *center, *radius, idx as int, (i + 1) as nat)
                            == extend_side(
                            extend_quadrants(base, *center, *radius, idx as int, i as nat),
                            *center,
                            *radius,
                            (idx as int + i as int) % 4,
                        ));
                    }
                    i = i + 1;
                }
            },
            GeometryObject::PolyLine { points } => {
                let n: usize = points.len();
                let mut k: usize = 0;
                while k < n
                    invariant
                        n == points@.len(),
                        k <= n,
                        bb == fold_points(BoundingBox::spec_null(), points@.take(k as int)),
                    decreases n - k,
                {
                    bb.add_assign_point(&points[k]);
                    proof {
                        assert(points@.take(k + 1 as int).drop_last() =~= points@.take(k as int));
                        assert(points@.take(k + 1 as int).last() == points@[k as int]);
                    }
                    k = k + 1;
                }
                proof {
                    assert(points@.take(n as int) =~= points@);
                }
            },
        }
        bb
    }
}

/// The quadrant index of the arc's counterclockwise start angle, and the
/// number of quadrant boundaries its sweep crosses, computed exactly in
/// whole degrees.
fn arc_quadrant_data(start: i64, sweep: i64) -> (r: (u64, u64))
    ensures
        r.0 as int == arc_start_quadrant(start as int, sweep as int),
        r.1 as int == arc_quadrant_count(sweep as int),
        r.0 <= 3,
        r.1 <= 4,
{
    let span: u128 = if sweep >= 0 {
        sweep as u128
    } else {
        (-(sweep as i128)) as u128
    };
    let cnt: u64 = if span >= 360 {
        4
    } else {
        (span / 90) as u64
    };
    let a0: i128 = if sweep >= 0 {
        start as i128
    } else {
        start as i128 + sweep as i128
    };
    let norm: u64 = if a0 >= 0 {
        ((a0 as u128) % 360) as u64
    } else {
        let m: u64 = (((-a0) as u128) % 360) as u64;
        proof {
            lemma_norm_of_negative(a0 as int);
        }
        if m == 0 {
            0
        } else {
            360 - m
        }
    };
    let idx: u64 = norm / 90;
    (idx, cnt)
}

/// Relates the remainder of a negative value to the remainder of its
/// magnitude, so the normalization can run on unsigned machine words.
proof fn lemma_norm_of_negative(a: int)
    requires
        a < 0,
    ensures
        (-a) % 360 == 0 ==> a % 360 == 0,
        (-a) % 360 != 0 ==> a % 360 == 360 - ((-a) % 360),
{
    let n = -a;
    let q = n / 360;
    let m = n % 360;
    lemma_fundamental_div_mod(n, 360);
    assert(n == 360 * q + m);
    if m == 0 {
        assert(a == 360 * (-q) + 0);
        lemma_mod_multiples_vanish(-q, 0, 360);
    } else {
        assert(a == 360 * (-q - 1) + (360 - m));
        lemma_mod_multiples_vanish(-q - 1, 360 - m, 360);
        lemma_small_mod((360 - m) as nat, 360);
    }
}

/// A polyline with at least one point whose coordinates are numbers gets a
/// valid box: the last union already makes the bounds consistent, whatever
/// preceded it.
pub proof fn lemma_polyline_box_valid(points: Seq<Vec2>)
    requires
        points.len() > 0,
        !(points.last().x is Nan),
        !(points.last().y is Nan),
    ensures
        fold_points(BoundingBox::spec_null(), points).is_valid(),
{
    lemma_add_point_contains(
        fold_points(BoundingBox::spec_null(), points.drop_last()),
        points.last(),
    );
}

/// An arc that sweeps a full turn or more is bounded like its whole
/// circle, whatever its endpoints and start angle: every side of the box
/// is extended to the circle's extremum.
pub proof fn lemma_arc_full_sweep_bounds_circle(
    center: Vec2,
    radius: Scalar,
    start: i64,
    sweep: i64,
    beg: Vec2,
    end: Vec2,
)
    requires
        mag(sweep as int) >= 360,
    ensures
        (GeometryObject::Arc { center, radius, start, sweep, beg, end }).spec_bounding_box()
            == (BoundingBox {
            l: center.x.spec_sub(radius),
            t: center.y.spec_sub(radius),
            r: center.x.spec_add(radius),
            b: center.y.spec_add(radius),
        }),
{
    let norm = arc_start_norm(start as int, sweep as int);
    lemma_mod_bound(
        if sweep as int >= 0 {
            start as int
        } else {
            start as int + sweep as int
        },
        360,
    );
    assert(0 <= norm < 360);
    let idx = arc_start_quadrant(start as int, sweep as int);
    assert(0 <= idx <= 3) by (nonlinear_arith)
        requires
            idx == norm / 90,
            0 <= norm < 360,
    ;
    let base = BoundingBox::spec_null().spec_add_point(beg).spec_add_point(end);
    lemma_extend_four(base, center, radius, idx);
}

/// Extending four consecutive sides from any quadrant index touches every
/// side of the box exactly once, so the result does not depend on the
/// index or on the box it started from.
proof fn lemma_extend_four(bb: BoundingBox, center: Vec2, radius: Scalar, idx: int)
    requires
        0 <= idx <= 3,
    ensures
        extend_quadrants(bb, center, radius, idx, 4) == (BoundingBox {
            l: center.x.spec_sub(radius),
            t: center.y.spec_sub(radius),
            r: center.x.spec_add(radius),
            b: center.y.spec_add(radius),
        }),
{
    let e0 = extend_quadrants(bb, center, radius, idx, 0);
    let e1 = extend_quadrants(bb, center, radius, idx, 1);
    let e2 = extend_quadrants(bb, center, radius, idx, 2);
    let e3 = extend_quadrants(bb, center, radius, idx, 3);
    let e4 = extend_quadrants(bb, center, radius, idx, 4);
    assert(e0 == bb);
    assert(e1 == extend_side(e0, center, radius, idx % 4));
    assert(e2 == extend_side(e1, center, radius, (idx + 1) % 4));
    assert(e3 == extend_side(e2, center, radius, (idx + 2) % 4));
    assert(e4 == extend_side(e3, center, radius, (idx + 3) % 4));
    if idx == 0 {
        assert(e4 == extend_side(
            extend_side(
                extend_side(extend_side(bb, center, radius, 0), center, radius, 1),
                center,
                radius,
                2,
            ),
            center,
            radius,
            3,
        ));
    } else if idx == 1 {
        assert(e4 == extend_side(
            extend_side(
                extend_side(extend_side(bb, center, radius, 1), center, radius, 2),
                center,
                radius,
                3,
            ),
            center,
            radius,
            0,
        ));
    } else if idx == 2 {
        assert(e4 == extend_side(
            extend_side(
                extend_side(extend_side(bb, center, radius, 2), center, radius, 3),
                center,
                radius,
                0,
            ),
            center,
            radius,
            1,
        ));
    } else {
        assert(e4 == extend_side(
            extend_side(
                extend_side(extend_side(bb, center, radius, 3), center, radius, 0),
                center,
                radius,
                1,
            ),
            center,
            radius,
            2,
        ));
    }
}

/// Deriving the bounding box is a pure function of the primitive: any two
/// derivations from the same value are the same box.
pub proof fn lemma_bounding_box_deterministic(o: GeometryObject, b1: BoundingBox, b2: BoundingBox)
    requires
        b1 == o.spec_bounding_box(),
        b2 == o.spec_bounding_box(),
    ensures
        b1 == b2,
{
}

} // verus!

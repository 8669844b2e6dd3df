use vstd::prelude::*;

use crate::scalar::BinOp;
use crate::scalar::Scalar;
use crate::scalar::lemma_le_refl;
use crate::scalar::lemma_le_trans;
use crate::scalar::lemma_min_le_both;
use crate::scalar::lemma_max_ge_both;
use crate::scalar::lemma_min_comm;
use crate::scalar::lemma_max_comm;
use crate::scalar::lemma_min_assoc;
use crate::scalar::lemma_max_assoc;
use crate::vec::Vec2;

verus! {

/// An axis-aligned rectangle given by its left, top, right and bottom
/// bounds. A valid non-degenerate box keeps `l` at most `r` and `t` at most
/// `b`; the `null` box inverts the bounds to the infinities so that it is
/// the identity of union-accumulation, and the `infinite` box absorbs every
/// union.
#[derive(Clone, Copy, Debug, PartialEq, Eq, Structural)]
pub struct BoundingBox {
    pub l: Scalar,
    pub t: Scalar,
    pub r: Scalar,
    pub b: Scalar,
}

impl BoundingBox {
    /// No bound is the not-a-number value. Every box built from the three
    /// constructors and the unions of points with numeric coordinates
    /// satisfies this; the union laws ask for it because a minimum against
    /// `Nan` drops the `Nan` rather than keeping it.
    pub open spec fn no_nan(self) -> bool {
        &&& !(self.l is Nan)
        &&& !(self.t is Nan)
        &&& !(self.r is Nan)
        &&& !(self.b is Nan)
    }

    /// The invariant of a box that bounds something: the left bound is at
    /// most the right, the top at most the bottom. The `null` box breaks
    /// it on purpose, and a comparison against a `Nan` bound is false, so
    /// a valid box has numeric bounds.
    pub open spec fn is_valid(self) -> bool {
        self.l.spec_le(self.r) && self.t.spec_le(self.b)
    }

    /// The point lies inside the box, bounds included.
    pub open spec fn contains_point(self, p: Vec2) -> bool {
        &&& self.l.spec_le(p.x)
        &&& p.x.spec_le(self.r)
        &&& self.t.spec_le(p.y)
        &&& p.y.spec_le(self.b)
    }

    /// The degenerate point box at the origin.
    pub open spec fn spec_zero() -> BoundingBox {
        BoundingBox {
            l: Scalar::Fin(0),
            t: Scalar::Fin(0),
            r: Scalar::Fin(0),
            b: Scalar::Fin(0),
        }
    }

    /// The identity of union-accumulation: bounds inverted to the
    /// infinities, so that the first union replaces them.
    pub open spec fn spec_null() -> BoundingBox {
        BoundingBox {
            l: Scalar::PosInf,
            t: Scalar::PosInf,
            r: Scalar::NegInf,
            b: Scalar::NegInf,
        }
    }

    /// The absorbing element of union-accumulation: the whole plane.
    pub open spec fn spec_infinite() -> BoundingBox {
        BoundingBox {
            l: Scalar::NegInf,
            t: Scalar::NegInf,
            r: Scalar::PosInf,
            b: Scalar::PosInf,
        }
    }

    /// The union with a single point: each bound moves outward to the
    /// point's coordinate where that coordinate lies outside.
    pub open spec fn spec_add_point(self, p: Vec2) -> BoundingBox {
        BoundingBox {
            l: self.l.spec_min(p.x),
            t: self.t.spec_min(p.y),
            r: self.r.spec_max(p.x),
            b: self.b.spec_max(p.y),
        }
    }

    /// The union with another box: the componentwise outer bounds.
    pub open spec fn spec_add_box(self, other: BoundingBox) -> BoundingBox {
        BoundingBox {
            l: self.l.spec_min(other.l),
            t: self.t.spec_min(other.t),
            r: self.r.spec_max(other.r),
            b: self.b.spec_max(other.b),
        }
    }

    pub fn zero() -> (bb: BoundingBox)
        ensures
            bb == BoundingBox::spec_zero(),
    {
        BoundingBox {
            l: Scalar::Fin(0),
            t: Scalar::Fin(0),
            r: Scalar::Fin(0),
            b: Scalar::Fin(0),
        }
    }

    pub fn null() -> (bb: BoundingBox)
        ensures
            bb == BoundingBox::spec_null(),
    {
        BoundingBox {
            l: Scalar::PosInf,
            t: Scalar::PosInf,
            r: Scalar::NegInf,
            b: Scalar::NegInf,
        }
    }

    pub fn infinite() -> (bb: BoundingBox)
        ensures
            bb == BoundingBox::spec_infinite(),
    {
        BoundingBox {
            l: Scalar::NegInf,
            t: Scalar::NegInf,
            r: Scalar::PosInf,
            b: Scalar::PosInf,
        }
    }

    pub fn width(&self) -> (w: Scalar)
        ensures
            w == self.r.spec_sub(self.l),
    {
        self.r.sub(self.l)
    }

    pub fn height(&self) -> (h: Scalar)
        ensures
            h == self.b.spec_sub(self.t),
    {
        self.b.sub(self.t)
    }

    pub fn size(&self) -> (s: Vec2)
        ensures
            s.x == self.r.spec_sub(self.l),
            s.y == self.b.spec_sub(self.t),
    {
        Vec2 { x: self.width(), y: self.height() }
    }

    pub fn center_x(&self) -> (c: Scalar)
        ensures
            c == self.l.spec_add(self.r).spec_div(Scalar::Fin(2)),
    {
        self.l.add(self.r).div(Scalar::Fin(2))
    }

    /// The midpoint of the vertical bounds; the lower bound is named first,
    /// which cannot matter to a midpoint.
    pub fn center_y(&self) -> (c: Scalar)
        ensures
            c == self.b.spec_add(self.t).spec_div(Scalar::Fin(2)),
    {
        self.b.add(self.t).div(Scalar::Fin(2))
    }

    pub fn center(&self) -> (c: Vec2)
        ensures
            c.x == self.l.spec_add(self.r).spec_div(Scalar::Fin(2)),
            c.y == self.b.spec_add(self.t).spec_div(Scalar::Fin(2)),
    {
        Vec2 { x: self.center_x(), y: self.center_y() }
    }

    /// Scales all four bounds about the origin, not about the box's own
    /// center.
    pub fn scale(&mut self, factor: Scalar)
        ensures
            final(self).l == old(self).l.spec_mul(factor),
            final(self).t == old(self).t.spec_mul(factor),
            final(self).r == old(self).r.spec_mul(factor),
            final(self).b == old(self).b.spec_mul(factor),
    {
        *self = BoundingBox {
            l: self.l.mul(factor),
            t: self.t.mul(factor),
            r: self.r.mul(factor),
            b: self.b.mul(factor),
        };
    }

    /// The union with a point, producing a fresh box.
    pub fn add_point(self, p: &Vec2) -> (bb: BoundingBox)
        ensures
            bb == self.spec_add_point(*p),
    {
        BoundingBox {
            l: self.l.min(p.x),
            t: self.t.min(p.y),
            r: self.r.max(p.x),
            b: self.b.max(p.y),
        }
    }

    /// The union with a point, replacing the receiver.
    pub fn add_assign_point(&mut self, p: &Vec2)
        ensures
            *final(self) == old(self).spec_add_point(*p),
    {
        *self = self.add_point(p);
    }

    /// The union with another box, producing a fresh box.
    pub fn add_box(self, other: BoundingBox) -> (bb: BoundingBox)
        ensures
            bb == self.spec_add_box(other),
    {
        BoundingBox {
            l: self.l.min(other.l),
            t: self.t.min(other.t),
            r: self.r.max(other.r),
            b: self.b.max(other.b),
        }
    }

    /// The union with another box, replacing the receiver.
    pub fn add_assign_box(&mut self, other: BoundingBox)
        ensures
            *final(self) == old(self).spec_add_box(other),
    {
        *self = self.add_box(other);
    }
}

/// The union with a point contains that point, whatever box it started
/// from — this is what makes the inverted `null` box a sound seed: its
/// first union is the degenerate box of the point itself.
pub proof fn lemma_add_point_contains(bb: BoundingBox, p: Vec2)
    requires
        !(p.x is Nan),
        !(p.y is Nan),
    ensures
        bb.spec_add_point(p).contains_point(p),
        bb.spec_add_point(p).is_valid(),
{
    lemma_le_refl(p.x);
    lemma_le_refl(p.y);
    if !(bb.l is Nan) {
        lemma_min_le_both(bb.l, p.x);
    }
    if !(bb.t is Nan) {
        lemma_min_le_both(bb.t, p.y);
    }
    if !(bb.r is Nan) {
        lemma_max_ge_both(bb.r, p.x);
    }
    if !(bb.b is Nan) {
        lemma_max_ge_both(bb.b, p.y);
    }
    lemma_le_trans(bb.spec_add_point(p).l, p.x, bb.spec_add_point(p).r);
    lemma_le_trans(bb.spec_add_point(p).t, p.y, bb.spec_add_point(p).b);
}

/// The union of two valid boxes is valid: bounds only ever move outward.
pub proof fn lemma_add_box_valid(a: BoundingBox, b: BoundingBox)
    requires
        a.is_valid(),
        b.is_valid(),
    ensures
        a.spec_add_box(b).is_valid(),
{
    lemma_min_le_both(a.l, b.l);
    lemma_max_ge_both(a.r, b.r);
    lemma_le_trans(a.spec_add_box(b).l, a.l, a.r);
    lemma_le_trans(a.spec_add_box(b).l, a.r, a.spec_add_box(b).r);
    lemma_min_le_both(a.t, b.t);
    lemma_max_ge_both(a.b, b.b);
    lemma_le_trans(a.spec_add_box(b).t, a.t, a.b);
    lemma_le_trans(a.spec_add_box(b).t, a.b, a.spec_add_box(b).b);
}

/// The null box is the identity of union on either side, for every box
/// whose bounds are not the not-a-number value. On a bound that is `Nan`
/// the union drops the `Nan` in favor of the null bound, because the
/// minimum prefers a number to a `Nan`.
pub proof fn lemma_add_box_null(bb: BoundingBox)
    requires
        bb.no_nan(),
    ensures
        bb.spec_add_box(BoundingBox::spec_null()) == bb,
        BoundingBox::spec_null().spec_add_box(bb) == bb,
{
}

/// The infinite box absorbs every union, on either side and for every box,
/// `Nan` bounds included.
pub proof fn lemma_add_box_infinite(bb: BoundingBox)
    ensures
        bb.spec_add_box(BoundingBox::spec_infinite()) == BoundingBox::spec_infinite(),
        BoundingBox::spec_infinite().spec_add_box(bb) == BoundingBox::spec_infinite(),
{
}

/// Union of boxes does not depend on the order of its operands.
pub proof fn lemma_add_box_comm(a: BoundingBox, b: BoundingBox)
    ensures
        a.spec_add_box(b) == b.spec_add_box(a),
{
    lemma_min_comm(a.l, b.l);
    lemma_min_comm(a.t, b.t);
    lemma_max_comm(a.r, b.r);
    lemma_max_comm(a.b, b.b);
}

/// Union of boxes associates, so accumulating many boxes may be grouped
/// freely, as a tree reduction would.
pub proof fn lemma_add_box_assoc(a: BoundingBox, b: BoundingBox, c: BoundingBox)
    ensures
        a.spec_add_box(b).spec_add_box(c) == a.spec_add_box(b.spec_add_box(c)),
{
    lemma_min_assoc(a.l, b.l, c.l);
    lemma_min_assoc(a.t, b.t, c.t);
    lemma_max_assoc(a.r, b.r, c.r);
    lemma_max_assoc(a.b, b.b, c.b);
}

/// Accumulating two points yields the same box in either order, so a fold
/// over a point sequence is order-independent.
pub proof fn lemma_add_point_comm(bb: BoundingBox, p: Vec2, q: Vec2)
    ensures
        bb.spec_add_point(p).spec_add_point(q) == bb.spec_add_point(q).spec_add_point(p),
{
    lemma_min_assoc(bb.l, p.x, q.x);
    lemma_min_assoc(bb.l, q.x, p.x);
    lemma_min_comm(p.x, q.x);
    lemma_min_assoc(bb.t, p.y, q.y);
    lemma_min_assoc(bb.t, q.y, p.y);
    lemma_min_comm(p.y, q.y);
    lemma_max_assoc(bb.r, p.x, q.x);
    lemma_max_assoc(bb.r, q.x, p.x);
    lemma_max_comm(p.x, q.x);
    lemma_max_assoc(bb.b, p.y, q.y);
    lemma_max_assoc(bb.b, q.y, p.y);
    lemma_max_comm(p.y, q.y);
}

} // verus!

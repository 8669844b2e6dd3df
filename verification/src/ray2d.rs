use vstd::prelude::*;

use crate::scalar::BinOp;
use crate::scalar::Scalar;
use crate::vec::Vec2;

verus! {

/// A half-line from `origin` along `direction`. The direction need not be
/// normalized; it must not be the zero vector for intersection queries to
/// be meaningful.
#[derive(Clone, Copy, Debug, PartialEq, Eq, Structural)]
pub struct Ray2D {
    pub origin: Vec2,
    pub direction: Vec2,
}

/// The point `ao + u * ad`, accepted only when both ray parameters are
/// non-negative: the crossing must lie on the forward half of both rays,
/// never on a backward extension. A parameter that came out as the
/// not-a-number value compares false and is rejected.
pub open spec fn spec_forward_point(ao: Vec2, ad: Vec2, u: Scalar, v: Scalar) -> Option<Vec2> {
    if Scalar::Fin(0).spec_le(u) && Scalar::Fin(0).spec_le(v) {
        Some(ao.spec_zip(ad.spec_broadcast(u, BinOp::Mul), BinOp::Add))
    } else {
        None
    }
}

impl Ray2D {
    pub open spec fn spec_new(origin: Vec2, direction: Vec2) -> Ray2D {
        Ray2D { origin, direction }
    }

    /// The intersection of two rays, solving
    /// `a.origin + u * a.direction == b.origin + v * b.direction` by one of
    /// two algebraic branches, chosen by which direction has a nonzero
    /// horizontal component so that the closing division is sound; with
    /// both components zero the rays are vertical and nothing is solved. A
    /// zero determinant — parallel or coincident rays — is detected and
    /// reported as no intersection rather than divided by.
    pub open spec fn spec_intersect(a: Ray2D, b: Ray2D) -> Option<Vec2> {
        let ao = a.origin;
        let ad = a.direction;
        let bo = b.origin;
        let bd = b.direction;
        if bd.x != Scalar::Fin(0) {
            let det = ad.x.spec_mul(bd.y).spec_sub(ad.y.spec_mul(bd.x));
            if det == Scalar::Fin(0) {
                None
            } else {
                let u = ao.y.spec_mul(bd.x).spec_add(bd.y.spec_mul(bo.x)).spec_sub(
                    bo.y.spec_mul(bd.x),
                ).spec_sub(bd.y.spec_mul(ao.x)).spec_div(det);
                let v = ao.x.spec_add(ad.x.spec_mul(u)).spec_sub(bo.x).spec_div(bd.x);
                spec_forward_point(ao, ad, u, v)
            }
        } else if ad.x != Scalar::Fin(0) {
            let det = bd.y.spec_mul(ad.x).spec_add(bd.x.spec_mul(ad.y));
            if det == Scalar::Fin(0) {
                None
            } else {
                let v = bo.y.spec_sub(ao.y).spec_mul(ad.x).spec_add(
                    ao.x.spec_sub(bo.x).spec_mul(ad.y),
                ).spec_neg().spec_div(det);
                let u = bo.x.spec_sub(ao.x).spec_add(v.spec_mul(bd.x)).spec_div(ad.x);
                spec_forward_point(ao, ad, u, v)
            }
        } else {
            None
        }
    }

    pub fn new(origin: Vec2, direction: Vec2) -> (r: Ray2D)
        ensures
            r == Ray2D::spec_new(origin, direction),
    {
        Ray2D { origin, direction }
    }

    /// The intersection point of the forward halves of two rays, or
    /// nothing: for parallel, coincident or both-vertical rays, and
    /// whenever the crossing of the underlying lines lies behind either
    /// origin.
    pub fn intersect(&self, other: &Ray2D) -> (result: Option<Vec2>)
        ensures
            result == Ray2D::spec_intersect(*self, *other),
    {
        let ao = self.origin;
        let ad = self.direction;
        let bo = other.origin;
        let bd = other.direction;

        let u: Scalar;
        let v: Scalar;
        if bd.x != Scalar::Fin(0) {
            let det = ad.x.mul(bd.y).sub(ad.y.mul(bd.x));
            if det == Scalar::Fin(0) {
                return None;
            }
            u = ao.y.mul(bd.x).add(bd.y.mul(bo.x)).sub(bo.y.mul(bd.x)).sub(bd.y.mul(ao.x)).div(
                det,
            );
            v = ao.x.add(ad.x.mul(u)).sub(bo.x).div(bd.x);
        } else if ad.x != Scalar::Fin(0) {
            let det = bd.y.mul(ad.x).add(bd.x.mul(ad.y));
            if det == Scalar::Fin(0) {
                return None;
            }
            v = bo.y.sub(ao.y).mul(ad.x).add(ao.x.sub(bo.x).mul(ad.y)).neg().div(det);
            u = bo.x.sub(ao.x).add(v.mul(bd.x)).div(ad.x);
        } else {
            return None;
        }

        if Scalar::Fin(0).le(u) && Scalar::Fin(0).le(v) {
            Some(ao.add(ad.mul_scalar(u)))
        } else {
            None
        }
    }
}

} // verus!

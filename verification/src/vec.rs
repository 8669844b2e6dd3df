use vstd::prelude::*;

use crate::scalar::BinOp;
use crate::scalar::Scalar;
use crate::scalar::scalar_op;
use crate::scalar::apply_op;
use crate::scalar::lemma_mul_comm;
use crate::scalar::lemma_sub_antisym;
use crate::scalar::lemma_add_sub_cancel;
use crate::scalar::lemma_mul_div_cancel;
use crate::scalar::lemma_neg_involution;
use crate::traits::Cross;
use crate::traits::Dot;

verus! {

/// A point or direction in the plane; a small value type, copied freely.
#[derive(Clone, Copy, Debug, PartialEq, Eq, Structural)]
pub struct Vec2 {
    pub x: Scalar,
    pub y: Scalar,
}

/// A point or direction in space.
#[derive(Clone, Copy, Debug, PartialEq, Eq, Structural)]
pub struct Vec3 {
    pub x: Scalar,
    pub y: Scalar,
    pub z: Scalar,
}

impl Vec2 {
    pub open spec fn new_spec(x: Scalar, y: Scalar) -> Vec2 {
        Vec2 { x, y }
    }

    /// Both components are finite numbers.
    pub open spec fn is_finite(self) -> bool {
        self.x is Fin && self.y is Fin
    }

    /// One elementwise operation applied component by component against
    /// another vector.
    pub open spec fn spec_zip(self, other: Vec2, op: BinOp) -> Vec2 {
        Vec2 { x: scalar_op(op, self.x, other.x), y: scalar_op(op, self.y, other.y) }
    }

    /// One elementwise operation applied with the same scalar on every
    /// component.
    pub open spec fn spec_broadcast(self, s: Scalar, op: BinOp) -> Vec2 {
        Vec2 { x: scalar_op(op, self.x, s), y: scalar_op(op, self.y, s) }
    }

    /// Every component negated.
    pub open spec fn spec_neg(self) -> Vec2 {
        Vec2 { x: self.x.spec_neg(), y: self.y.spec_neg() }
    }

    pub fn new(x: Scalar, y: Scalar) -> (r: Vec2)
        ensures
            r == Vec2::new_spec(x, y),
    {
        Vec2 { x, y }
    }

    /// The shared elementwise helper that every vector-vector operator is
    /// one call of.
    pub fn zip(self, other: Vec2, op: BinOp) -> (r: Vec2)
        ensures
            r == self.spec_zip(other, op),
    {
        Vec2 { x: apply_op(op, self.x, other.x), y: apply_op(op, self.y, other.y) }
    }

    /// The shared elementwise helper that every vector-scalar operator is
    /// one call of.
    pub fn broadcast(self, s: Scalar, op: BinOp) -> (r: Vec2)
        ensures
            r == self.spec_broadcast(s, op),
    {
        Vec2 { x: apply_op(op, self.x, s), y: apply_op(op, self.y, s) }
    }

    pub fn add(self, other: Vec2) -> (r: Vec2)
        ensures
            r == self.spec_zip(other, BinOp::Add),
    {
        self.zip(other, BinOp::Add)
    }

    pub fn sub(self, other: Vec2) -> (r: Vec2)
        ensures
            r == self.spec_zip(other, BinOp::Sub),
    {
        self.zip(other, BinOp::Sub)
    }

    pub fn mul(self, other: Vec2) -> (r: Vec2)
        ensures
            r == self.spec_zip(other, BinOp::Mul),
    {
        self.zip(other, BinOp::Mul)
    }

    pub fn div(self, other: Vec2) -> (r: Vec2)
        ensures
            r == self.spec_zip(other, BinOp::Div),
    {
        self.zip(other, BinOp::Div)
    }

    pub fn add_scalar(self, s: Scalar) -> (r: Vec2)
        ensures
            r == self.spec_broadcast(s, BinOp::Add),
    {
        self.broadcast(s, BinOp::Add)
    }

    pub fn sub_scalar(self, s: Scalar) -> (r: Vec2)
        ensures
            r == self.spec_broadcast(s, BinOp::Sub),
    {
        self.broadcast(s, BinOp::Sub)
    }

    pub fn mul_scalar(self, s: Scalar) -> (r: Vec2)
        ensures
            r == self.spec_broadcast(s, BinOp::Mul),
    {
        self.broadcast(s, BinOp::Mul)
    }

    pub fn div_scalar(self, s: Scalar) -> (r: Vec2)
        ensures
            r == self.spec_broadcast(s, BinOp::Div),
    {
        self.broadcast(s, BinOp::Div)
    }

    pub fn add_assign(&mut self, other: Vec2)
        ensures
            *final(self) == old(self).spec_zip(other, BinOp::Add),
    {
        *self = self.zip(other, BinOp::Add);
    }

    pub fn sub_assign(&mut self, other: Vec2)
        ensures
            *final(self) == old(self).spec_zip(other, BinOp::Sub),
    {
        *self = self.zip(other, BinOp::Sub);
    }

    pub fn mul_assign(&mut self, other: Vec2)
        ensures
            *final(self) == old(self).spec_zip(other, BinOp::Mul),
    {
        *self = self.zip(other, BinOp::Mul);
    }

    pub fn div_assign(&mut self, other: Vec2)
        ensures
            *final(self) == old(self).spec_zip(other, BinOp::Div),
    {
        *self = self.zip(other, BinOp::Div);
    }

    pub fn add_scalar_assign(&mut self, s: Scalar)
        ensures
            *final(self) == old(self).spec_broadcast(s, BinOp::Add),
    {
        *self = self.broadcast(s, BinOp::Add);
    }

    pub fn sub_scalar_assign(&mut self, s: Scalar)
        ensures
            *final(self) == old(self).spec_broadcast(s, BinOp::Sub),
    {
        *self = self.broadcast(s, BinOp::Sub);
    }

    pub fn mul_scalar_assign(&mut self, s: Scalar)
        ensures
            *final(self) == old(self).spec_broadcast(s, BinOp::Mul),
    {
        *self = self.broadcast(s, BinOp::Mul);
    }

    pub fn div_scalar_assign(&mut self, s: Scalar)
        ensures
            *final(self) == old(self).spec_broadcast(s, BinOp::Div),
    {
        *self = self.broadcast(s, BinOp::Div);
    }

    pub fn neg(self) -> (r: Vec2)
        ensures
            r == self.spec_neg(),
    {
        Vec2 { x: self.x.neg(), y: self.y.neg() }
    }

    /// The squared magnitude: the inner product of the vector with itself.
    /// No square root is taken; this is the deliberate contract of the
    /// kernel, not an oversight.
    pub fn length(&self) -> (r: Scalar)
        ensures
            r == self.dot_spec(self),
    {
        self.dot(self)
    }

    /// Every component divided by the squared magnitude. On the zero vector
    /// the division is not guarded and the components come out as the
    /// special values.
    pub fn normalized(&self) -> (r: Vec2)
        ensures
            r == self.spec_broadcast(self.dot_spec(self), BinOp::Div),
    {
        let len = self.length();
        self.div_scalar(len)
    }

    /// In-place form of `normalized`.
    pub fn normalize(&mut self)
        ensures
            *final(self) == old(self).spec_broadcast(old(self).dot_spec(&*old(self)), BinOp::Div),
    {
        let len = self.length();
        *self = self.div_scalar(len);
    }
}

impl Dot<Vec2> for Vec2 {
    type Output = Scalar;

    open spec fn dot_req(&self, other: &Vec2) -> bool {
        true
    }

    open spec fn dot_spec(&self, other: &Vec2) -> Scalar {
        self.x.spec_mul(other.x).spec_add(self.y.spec_mul(other.y))
    }

    /// The sum of the pairwise component products.
    fn dot(&self, other: &Vec2) -> (r: Scalar)
    {
        self.x.mul(other.x).add(self.y.mul(other.y))
    }
}

impl Cross<Vec2> for Vec2 {
    type Output = Scalar;

    open spec fn cross_spec(&self, other: &Vec2) -> Scalar {
        self.x.spec_mul(other.y).spec_sub(self.y.spec_mul(other.x))
    }

    /// The planar cross product, a signed-area proxy.
    fn cross(&self, other: &Vec2) -> (r: Scalar)
    {
        self.x.mul(other.y).sub(self.y.mul(other.x))
    }
}

impl Vec3 {
    pub open spec fn new_spec(x: Scalar, y: Scalar, z: Scalar) -> Vec3 {
        Vec3 { x, y, z }
    }

    /// All three components are finite numbers.
    pub open spec fn is_finite(self) -> bool {
        self.x is Fin && self.y is Fin && self.z is Fin
    }

    pub open spec fn spec_zip(self, other: Vec3, op: BinOp) -> Vec3 {
        Vec3 {
            x: scalar_op(op, self.x, other.x),
            y: scalar_op(op, self.y, other.y),
            z: scalar_op(op, self.z, other.z),
        }
    }

    pub open spec fn spec_broadcast(self, s: Scalar, op: BinOp) -> Vec3 {
        Vec3 {
            x: scalar_op(op, self.x, s),
            y: scalar_op(op, self.y, s),
            z: scalar_op(op, self.z, s),
        }
    }

    pub open spec fn spec_neg(self) -> Vec3 {
        Vec3 { x: self.x.spec_neg(), y: self.y.spec_neg(), z: self.z.spec_neg() }
    }

    pub fn new(x: Scalar, y: Scalar, z: Scalar) -> (r: Vec3)
        ensures
            r == Vec3::new_spec(x, y, z),
    {
        Vec3 { x, y, z }
    }

    pub fn zip(self, other: Vec3, op: BinOp) -> (r: Vec3)
        ensures
            r == self.spec_zip(other, op),
    {
        Vec3 {
            x: apply_op(op, self.x, other.x),
            y: apply_op(op, self.y, other.y),
            z: apply_op(op, self.z, other.z),
        }
    }

    pub fn broadcast(self, s: Scalar, op: BinOp) -> (r: Vec3)
        ensures
            r == self.spec_broadcast(s, op),
    {
        Vec3 {
            x: apply_op(op, self.x, s),
            y: apply_op(op, self.y, s),
            z: apply_op(op, self.z, s),
        }
    }

    pub fn add(self, other: Vec3) -> (r: Vec3)
        ensures
            r == self.spec_zip(other, BinOp::Add),
    {
        self.zip(other, BinOp::Add)
    }

    pub fn sub(self, other: Vec3) -> (r: Vec3)
        ensures
            r == self.spec_zip(other, BinOp::Sub),
    {
        self.zip(other, BinOp::Sub)
    }

    pub fn mul(self, other: Vec3) -> (r: Vec3)
        ensures
            r == self.spec_zip(other, BinOp::Mul),
    {
        self.zip(other, BinOp::Mul)
    }

    pub fn div(self, other: Vec3) -> (r: Vec3)
        ensures
            r == self.spec_zip(other, BinOp::Div),
    {
        self.zip(other, BinOp::Div)
    }

    pub fn add_scalar(self, s: Scalar) -> (r: Vec3)
        ensures
            r == self.spec_broadcast(s, BinOp::Add),
    {
        self.broadcast(s, BinOp::Add)
    }

    pub fn sub_scalar(self, s: Scalar) -> (r: Vec3)
        ensures
            r == self.spec_broadcast(s, BinOp::Sub),
    {
        self.broadcast(s, BinOp::Sub)
    }

    pub fn mul_scalar(self, s: Scalar) -> (r: Vec3)
        ensures
            r == self.spec_broadcast(s, BinOp::Mul),
    {
        self.broadcast(s, BinOp::Mul)
    }

    pub fn div_scalar(self, s: Scalar) -> (r: Vec3)
        ensures
            r == self.spec_broadcast(s, BinOp::Div),
    {
        self.broadcast(s, BinOp::Div)
    }

    pub fn add_assign(&mut self, other: Vec3)
        ensures
            *final(self) == old(self).spec_zip(other, BinOp::Add),
    {
        *self = self.zip(other, BinOp::Add);
    }

    pub fn sub_assign(&mut self, other: Vec3)
        ensures
            *final(self) == old(self).spec_zip(other, BinOp::Sub),
    {
        *self = self.zip(other, BinOp::Sub);
    }

    pub fn mul_assign(&mut self, other: Vec3)
        ensures
            *final(self) == old(self).spec_zip(other, BinOp::Mul),
    {
        *self = self.zip(other, BinOp::Mul);
    }

    pub fn div_assign(&mut self, other: Vec3)
        ensures
            *final(self) == old(self).spec_zip(other, BinOp::Div),
    {
        *self = self.zip(other, BinOp::Div);
    }

    pub fn add_scalar_assign(&mut self, s: Scalar)
        ensures
            *final(self) == old(self).spec_broadcast(s, BinOp::Add),
    {
        *self = self.broadcast(s, BinOp::Add);
    }

    pub fn sub_scalar_assign(&mut self, s: Scalar)
        ensures
            *final(self) == old(self).spec_broadcast(s, BinOp::Sub),
    {
        *self = self.broadcast(s, BinOp::Sub);
    }

    pub fn mul_scalar_assign(&mut self, s: Scalar)
        ensures
            *final(self) == old(self).spec_broadcast(s, BinOp::Mul),
    {
        *self = self.broadcast(s, BinOp::Mul);
    }

    pub fn div_scalar_assign(&mut self, s: Scalar)
        ensures
            *final(self) == old(self).spec_broadcast(s, BinOp::Div),
    {
        *self = self.broadcast(s, BinOp::Div);
    }

    pub fn neg(self) -> (r: Vec3)
        ensures
            r == self.spec_neg(),
    {
        Vec3 { x: self.x.neg(), y: self.y.neg(), z: self.z.neg() }
    }

    /// The squared magnitude, as for the planar vector.
    pub fn length(&self) -> (r: Scalar)
        ensures
            r == self.dot_spec(self),
    {
        self.dot(self)
    }

    /// Every component divided by the squared magnitude; unguarded on the
    /// zero vector.
    pub fn normalized(&self) -> (r: Vec3)
        ensures
            r == self.spec_broadcast(self.dot_spec(self), BinOp::Div),
    {
        let len = self.length();
        self.div_scalar(len)
    }

    /// In-place form of `normalized`.
    pub fn normalize(&mut self)
        ensures
            *final(self) == old(self).spec_broadcast(old(self).dot_spec(&*old(self)), BinOp::Div),
    {
        let len = self.length();
        *self = self.div_scalar(len);
    }
}

impl Dot<Vec3> for Vec3 {
    type Output = Scalar;

    open spec fn dot_req(&self, other: &Vec3) -> bool {
        true
    }

    open spec fn dot_spec(&self, other: &Vec3) -> Scalar {
        self.x.spec_mul(other.x).spec_add(self.y.spec_mul(other.y)).spec_add(
            self.z.spec_mul(other.z),
        )
    }

    /// The sum of the pairwise component products.
    fn dot(&self, other: &Vec3) -> (r: Scalar)
    {
        self.x.mul(other.x).add(self.y.mul(other.y)).add(self.z.mul(other.z))
    }
}

impl Cross<Vec3> for Vec3 {
    type Output = Vec3;

    open spec fn cross_spec(&self, other: &Vec3) -> Vec3 {
        Vec3 {
            x: self.y.spec_mul(other.z).spec_sub(self.z.spec_mul(other.y)),
            y: self.z.spec_mul(other.x).spec_sub(self.x.spec_mul(other.z)),
            z: self.x.spec_mul(other.y).spec_sub(self.y.spec_mul(other.x)),
        }
    }

    /// The spatial cross product.
    fn cross(&self, other: &Vec3) -> (r: Vec3)
    {
        Vec3 {
            x: self.y.mul(other.z).sub(self.z.mul(other.y)),
            y: self.z.mul(other.x).sub(self.x.mul(other.z)),
            z: self.x.mul(other.y).sub(self.y.mul(other.x)),
        }
    }
}

/// Adding a vector and then subtracting it again is the identity, as long
/// as every intermediate sum stays representable.
pub proof fn lemma_v2_add_sub_cancel(a: Vec2, b: Vec2)
    requires
        a.is_finite(),
        b.is_finite(),
        i64::MIN <= a.x.val() + b.x.val() <= i64::MAX,
        i64::MIN <= a.y.val() + b.y.val() <= i64::MAX,
    ensures
        a.spec_zip(b, BinOp::Add).spec_zip(b, BinOp::Sub) == a,
{
    lemma_add_sub_cancel(a.x, b.x);
    lemma_add_sub_cancel(a.y, b.y);
}

/// Scaling by a nonzero scalar and then dividing by it again is the
/// identity, as long as the intermediate products stay representable.
pub proof fn lemma_v2_mul_div_cancel(a: Vec2, s: Scalar)
    requires
        a.is_finite(),
        s is Fin,
        s.val() != 0,
        i64::MIN <= a.x.val() * s.val() <= i64::MAX,
        i64::MIN <= a.y.val() * s.val() <= i64::MAX,
    ensures
        a.spec_broadcast(s, BinOp::Mul).spec_broadcast(s, BinOp::Div) == a,
{
    lemma_mul_div_cancel(a.x, s);
    lemma_mul_div_cancel(a.y, s);
}

/// Negation of a planar vector is an involution away from the one
/// component value whose opposite saturates.
pub proof fn lemma_v2_neg_neg(a: Vec2)
    requires
        a.x != Scalar::Fin(i64::MIN),
        a.y != Scalar::Fin(i64::MIN),
    ensures
        a.spec_neg().spec_neg() == a,
{
    lemma_neg_involution(a.x);
    lemma_neg_involution(a.y);
}

/// The planar inner product does not depend on the order of its operands,
/// special values included.
pub proof fn lemma_v2_dot_comm(a: Vec2, b: Vec2)
    ensures
        a.dot_spec(&b) == b.dot_spec(&a),
{
    lemma_mul_comm(a.x, b.x);
    lemma_mul_comm(a.y, b.y);
}

/// Swapping the operands of the planar cross product negates it. Excluded
/// is the corner where one of the two signed areas is the one value
/// without a finite opposite.
pub proof fn lemma_v2_cross_antisym(a: Vec2, b: Vec2)
    requires
        a.cross_spec(&b) != Scalar::Fin(i64::MIN),
    ensures
        a.cross_spec(&b) == b.cross_spec(&a).spec_neg(),
{
    lemma_mul_comm(a.x, b.y);
    lemma_mul_comm(a.y, b.x);
    lemma_sub_antisym(a.x.spec_mul(b.y), a.y.spec_mul(b.x));
}

/// The spatial inner product does not depend on the order of its operands.
pub proof fn lemma_v3_dot_comm(a: Vec3, b: Vec3)
    ensures
        a.dot_spec(&b) == b.dot_spec(&a),
{
    lemma_mul_comm(a.x, b.x);
    lemma_mul_comm(a.y, b.y);
    lemma_mul_comm(a.z, b.z);
}

/// Swapping the operands of the spatial cross product negates it
/// componentwise, away from the saturating corner value.
pub proof fn lemma_v3_cross_antisym(a: Vec3, b: Vec3)
    requires
        a.cross_spec(&b).x != Scalar::Fin(i64::MIN),
        a.cross_spec(&b).y != Scalar::Fin(i64::MIN),
        a.cross_spec(&b).z != Scalar::Fin(i64::MIN),
    ensures
        a.cross_spec(&b) == b.cross_spec(&a).spec_neg(),
{
    lemma_mul_comm(a.y, b.z);
    lemma_mul_comm(a.z, b.y);
    lemma_mul_comm(a.z, b.x);
    lemma_mul_comm(a.x, b.z);
    lemma_mul_comm(a.x, b.y);
    lemma_mul_comm(a.y, b.x);
    lemma_sub_antisym(a.y.spec_mul(b.z), a.z.spec_mul(b.y));
    lemma_sub_antisym(a.z.spec_mul(b.x), a.x.spec_mul(b.z));
    lemma_sub_antisym(a.x.spec_mul(b.y), a.y.spec_mul(b.x));
}

/// Adding a spatial vector and then subtracting it again is the identity,
/// under the same range conditions as in the plane.
pub proof fn lemma_v3_add_sub_cancel(a: Vec3, b: Vec3)
    requires
        a.is_finite(),
        b.is_finite(),
        i64::MIN <= a.x.val() + b.x.val() <= i64::MAX,
        i64::MIN <= a.y.val() + b.y.val() <= i64::MAX,
        i64::MIN <= a.z.val() + b.z.val() <= i64::MAX,
    ensures
        a.spec_zip(b, BinOp::Add).spec_zip(b, BinOp::Sub) == a,
{
    lemma_add_sub_cancel(a.x, b.x);
    lemma_add_sub_cancel(a.y, b.y);
    lemma_add_sub_cancel(a.z, b.z);
}

/// Scaling a spatial vector by a nonzero scalar and dividing by it again
/// is the identity, under the same range conditions as in the plane.
pub proof fn lemma_v3_mul_div_cancel(a: Vec3, s: Scalar)
    requires
        a.is_finite(),
        s is Fin,
        s.val() != 0,
        i64::MIN <= a.x.val() * s.val() <= i64::MAX,
        i64::MIN <= a.y.val() * s.val() <= i64::MAX,
        i64::MIN <= a.z.val() * s.val() <= i64::MAX,
    ensures
        a.spec_broadcast(s, BinOp::Mul).spec_broadcast(s, BinOp::Div) == a,
{
    lemma_mul_div_cancel(a.x, s);
    lemma_mul_div_cancel(a.y, s);
    lemma_mul_div_cancel(a.z, s);
}

/// Negation of a spatial vector is an involution away from the saturating
/// component value.
pub proof fn lemma_v3_neg_neg(a: Vec3)
    requires
        a.x != Scalar::Fin(i64::MIN),
        a.y != Scalar::Fin(i64::MIN),
        a.z != Scalar::Fin(i64::MIN),
    ensures
        a.spec_neg().spec_neg() == a,
{
    lemma_neg_involution(a.x);
    lemma_neg_involution(a.y);
    lemma_neg_involution(a.z);
}

} // verus!

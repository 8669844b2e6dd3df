use vstd::prelude::*;

verus! {

/// One coordinate of the exact geometric kernel.
///
/// Finite coordinates are 64-bit integers. The three special values mirror
/// the special values of IEEE-754 arithmetic that the geometry depends on:
/// the two infinities serve as identity and absorbing bounds for the
/// bounding-box union, and the not-a-number value arises from the
/// indeterminate forms (`0 / 0`, `inf - inf`, `0 * inf`) and propagates
/// through every operation. Arithmetic is total: where a finite result would
/// leave the representable range it saturates to the infinity of the
/// matching sign, much as floating-point arithmetic overflows to its
/// infinities, and finite division truncates toward zero.
#[derive(Clone, Copy, Debug, PartialEq, Eq, Structural)]
pub enum Scalar {
    Nan,
    NegInf,
    Fin(i64),
    PosInf,
}

/// The finite scalar nearest to the mathematical value `v`: `v` itself when
/// it is representable, else the infinity on the side where `v` left the
/// range.
pub open spec fn clamp(v: int) -> Scalar {
    if v > i64::MAX {
        Scalar::PosInf
    } else if v < i64::MIN {
        Scalar::NegInf
    } else {
        Scalar::Fin(v as i64)
    }
}

/// The magnitude of `x`.
pub open spec fn mag(x: int) -> int {
    if x < 0 {
        -x
    } else {
        x
    }
}

/// Division truncating toward zero, as machine division does, in contrast to
/// the Euclidean `/` of specifications.
pub open spec fn div_trunc(x: int, y: int) -> int
    recommends
        y != 0,
{
    if (x < 0) != (y < 0) {
        -(mag(x) / mag(y))
    } else {
        mag(x) / mag(y)
    }
}

impl Scalar {
    /// The mathematical value of a finite scalar.
    pub open spec fn val(self) -> int
        recommends
            self is Fin,
    {
        match self {
            Scalar::Fin(v) => v as int,
            _ => 0,
        }
    }

    /// Sum, with the special values behaving as IEEE addition does:
    /// opposite infinities give `Nan`, an infinity absorbs any finite
    /// operand, and a finite sum out of range saturates.
    pub open spec fn spec_add(self, other: Scalar) -> Scalar {
        match (self, other) {
            (Scalar::Nan, _) | (_, Scalar::Nan) => Scalar::Nan,
            (Scalar::PosInf, Scalar::NegInf) | (Scalar::NegInf, Scalar::PosInf) => Scalar::Nan,
            (Scalar::PosInf, _) | (_, Scalar::PosInf) => Scalar::PosInf,
            (Scalar::NegInf, _) | (_, Scalar::NegInf) => Scalar::NegInf,
            (Scalar::Fin(x), Scalar::Fin(y)) => clamp(x + y),
        }
    }

    /// Difference, the mirror image of `spec_add`: equal infinities give
    /// `Nan`.
    pub open spec fn spec_sub(self, other: Scalar) -> Scalar {
        match (self, other) {
            (Scalar::Nan, _) | (_, Scalar::Nan) => Scalar::Nan,
            (Scalar::PosInf, Scalar::PosInf) | (Scalar::NegInf, Scalar::NegInf) => Scalar::Nan,
            (Scalar::PosInf, _) | (_, Scalar::NegInf) => Scalar::PosInf,
            (Scalar::NegInf, _) | (_, Scalar::PosInf) => Scalar::NegInf,
            (Scalar::Fin(x), Scalar::Fin(y)) => clamp(x - y),
        }
    }

    /// Product; an infinity times zero is the indeterminate `Nan`, otherwise
    /// signs multiply.
    pub open spec fn spec_mul(self, other: Scalar) -> Scalar {
        match (self, other) {
            (Scalar::Nan, _) | (_, Scalar::Nan) => Scalar::Nan,
            (Scalar::PosInf, Scalar::PosInf) | (Scalar::NegInf, Scalar::NegInf) => Scalar::PosInf,
            (Scalar::PosInf, Scalar::NegInf) | (Scalar::NegInf, Scalar::PosInf) => Scalar::NegInf,
            (Scalar::PosInf, Scalar::Fin(y)) | (Scalar::Fin(y), Scalar::PosInf) => if y > 0 {
                Scalar::PosInf
            } else if y < 0 {
                Scalar::NegInf
            } else {
                Scalar::Nan
            },
            (Scalar::NegInf, Scalar::Fin(y)) | (Scalar::Fin(y), Scalar::NegInf) => if y > 0 {
                Scalar::NegInf
            } else if y < 0 {
                Scalar::PosInf
            } else {
                Scalar::Nan
            },
            (Scalar::Fin(x), Scalar::Fin(y)) => clamp(x * y),
        }
    }

    /// Quotient. Division by zero is not guarded: it yields the infinity of
    /// the dividend's sign, and `0 / 0` yields `Nan`, exactly as IEEE
    /// division propagates its special values. A finite quotient truncates
    /// toward zero.
    pub open spec fn spec_div(self, other: Scalar) -> Scalar {
        match (self, other) {
            (Scalar::Nan, _) | (_, Scalar::Nan) => Scalar::Nan,
            (Scalar::PosInf, Scalar::PosInf)
            | (Scalar::PosInf, Scalar::NegInf)
            | (Scalar::NegInf, Scalar::PosInf)
            | (Scalar::NegInf, Scalar::NegInf) => Scalar::Nan,
            (Scalar::PosInf, Scalar::Fin(y)) => if y >= 0 {
                Scalar::PosInf
            } else {
                Scalar::NegInf
            },
            (Scalar::NegInf, Scalar::Fin(y)) => if y >= 0 {
                Scalar::NegInf
            } else {
                Scalar::PosInf
            },
            (Scalar::Fin(_), Scalar::PosInf) | (Scalar::Fin(_), Scalar::NegInf) => Scalar::Fin(0),
            (Scalar::Fin(x), Scalar::Fin(y)) => if y == 0 {
                if x > 0 {
                    Scalar::PosInf
                } else if x < 0 {
                    Scalar::NegInf
                } else {
                    Scalar::Nan
                }
            } else {
                clamp(div_trunc(x as int, y as int))
            },
        }
    }

    /// Negation; the finite minimum has no finite opposite and saturates.
    pub open spec fn spec_neg(self) -> Scalar {
        match self {
            Scalar::Nan => Scalar::Nan,
            Scalar::PosInf => Scalar::NegInf,
            Scalar::NegInf => Scalar::PosInf,
            Scalar::Fin(x) => clamp(-x),
        }
    }

    /// The ordering of IEEE comparisons: any comparison against `Nan` is
    /// false.
    pub open spec fn spec_le(self, other: Scalar) -> bool {
        match (self, other) {
            (Scalar::Nan, _) | (_, Scalar::Nan) => false,
            (Scalar::NegInf, _) => true,
            (_, Scalar::NegInf) => false,
            (_, Scalar::PosInf) => true,
            (Scalar::PosInf, _) => false,
            (Scalar::Fin(x), Scalar::Fin(y)) => x <= y,
        }
    }

    /// The smaller operand; against `Nan` the other operand is returned, as
    /// the floating minimum of Rust's `f64` prefers a number to a `Nan`.
    pub open spec fn spec_min(self, other: Scalar) -> Scalar {
        if self is Nan {
            other
        } else if other is Nan {
            self
        } else if self.spec_le(other) {
            self
        } else {
            other
        }
    }

    /// The larger operand; against `Nan` the other operand is returned.
    pub open spec fn spec_max(self, other: Scalar) -> Scalar {
        if self is Nan {
            other
        } else if other is Nan {
            self
        } else if self.spec_le(other) {
            other
        } else {
            self
        }
    }

    pub fn is_nan(self) -> (r: bool)
        ensures
            r == (self is Nan),
    {
        match self {
            Scalar::Nan => true,
            _ => false,
        }
    }

    pub fn add(self, other: Scalar) -> (r: Scalar)
        ensures
            r == self.spec_add(other),
    {
        match (self, other) {
            (Scalar::Nan, _) | (_, Scalar::Nan) => Scalar::Nan,
            (Scalar::PosInf, Scalar::NegInf) | (Scalar::NegInf, Scalar::PosInf) => Scalar::Nan,
            (Scalar::PosInf, _) | (_, Scalar::PosInf) => Scalar::PosInf,
            (Scalar::NegInf, _) | (_, Scalar::NegInf) => Scalar::NegInf,
            (Scalar::Fin(x), Scalar::Fin(y)) => {
                let s: i128 = x as i128 + y as i128;
                if s > i64::MAX as i128 {
                    Scalar::PosInf
                } else if s < i64::MIN as i128 {
                    Scalar::NegInf
                } else {
                    Scalar::Fin(s as i64)
                }
            },
        }
    }

    pub fn sub(self, other: Scalar) -> (r: Scalar)
        ensures
            r == self.spec_sub(other),
    {
        match (self, other) {
            (Scalar::Nan, _) | (_, Scalar::Nan) => Scalar::Nan,
            (Scalar::PosInf, Scalar::PosInf) | (Scalar::NegInf, Scalar::NegInf) => Scalar::Nan,
            (Scalar::PosInf, _) | (_, Scalar::NegInf) => Scalar::PosInf,
            (Scalar::NegInf, _) | (_, Scalar::PosInf) => Scalar::NegInf,
            (Scalar::Fin(x), Scalar::Fin(y)) => {
                let s: i128 = x as i128 - y as i128;
                if s > i64::MAX as i128 {
                    Scalar::PosInf
                } else if s < i64::MIN as i128 {
                    Scalar::NegInf
                } else {
                    Scalar::Fin(s as i64)
                }
            },
        }
    }

    pub fn mul(self, other: Scalar) -> (r: Scalar)
        ensures
            r == self.spec_mul(other),
    {
        match (self, other) {
            (Scalar::Nan, _) | (_, Scalar::Nan) => Scalar::Nan,
            (Scalar::PosInf, Scalar::PosInf) | (Scalar::NegInf, Scalar::NegInf) => Scalar::PosInf,
            (Scalar::PosInf, Scalar::NegInf) | (Scalar::NegInf, Scalar::PosInf) => Scalar::NegInf,
            (Scalar::PosInf, Scalar::Fin(y)) | (Scalar::Fin(y), Scalar::PosInf) => {
                if y > 0 {
                    Scalar::PosInf
                } else if y < 0 {
                    Scalar::NegInf
                } else {
                    Scalar::Nan
                }
            },
            (Scalar::NegInf, Scalar::Fin(y)) | (Scalar::Fin(y), Scalar::NegInf) => {
                if y > 0 {
                    Scalar::NegInf
                } else if y < 0 {
                    Scalar::PosInf
                } else {
                    Scalar::Nan
                }
            },
            (Scalar::Fin(x), Scalar::Fin(y)) => {
                proof {
                    lemma_i64_product_fits(x as int, y as int);
                }
                let p: i128 = (x as i128) * (y as i128);
                if p > i64::MAX as i128 {
                    Scalar::PosInf
                } else if p < i64::MIN as i128 {
                    Scalar::NegInf
                } else {
                    Scalar::Fin(p as i64)
                }
            },
        }
    }

    pub fn div(self, other: Scalar) -> (r: Scalar)
        ensures
            r == self.spec_div(other),
    {
        match (self, other) {
            (Scalar::Nan, _) | (_, Scalar::Nan) => Scalar::Nan,
            (Scalar::PosInf, Scalar::PosInf)
            | (Scalar::PosInf, Scalar::NegInf)
            | (Scalar::NegInf, Scalar::PosInf)
            | (Scalar::NegInf, Scalar::NegInf) => Scalar::Nan,
            (Scalar::PosInf, Scalar::Fin(y)) => {
                if y >= 0 {
                    Scalar::PosInf
                } else {
                    Scalar::NegInf
                }
            },
            (Scalar::NegInf, Scalar::Fin(y)) => {
                if y >= 0 {
                    Scalar::NegInf
                } else {
                    Scalar::PosInf
                }
            },
            (Scalar::Fin(_), Scalar::PosInf) | (Scalar::Fin(_), Scalar::NegInf) => Scalar::Fin(0),
            (Scalar::Fin(x), Scalar::Fin(y)) => {
                if y == 0 {
                    if x > 0 {
                        Scalar::PosInf
                    } else if x < 0 {
                        Scalar::NegInf
                    } else {
                        Scalar::Nan
                    }
                } else {
                    let ux: u64 = magnitude(x);
                    let uy: u64 = magnitude(y);
                    let q: u64 = ux / uy;
                    if (x < 0) != (y < 0) {
                        Scalar::Fin((-(q as i128)) as i64)
                    } else {
                        if q > i64::MAX as u64 {
                            Scalar::PosInf
                        } else {
                            Scalar::Fin(q as i64)
                        }
                    }
                }
            },
        }
    }

    pub fn neg(self) -> (r: Scalar)
        ensures
            r == self.spec_neg(),
    {
        match self {
            Scalar::Nan => Scalar::Nan,
            Scalar::PosInf => Scalar::NegInf,
            Scalar::NegInf => Scalar::PosInf,
            Scalar::Fin(x) => {
                if x == i64::MIN {
                    Scalar::PosInf
                } else {
                    Scalar::Fin(-x)
                }
            },
        }
    }

    pub fn le(self, other: Scalar) -> (r: bool)
        ensures
            r == self.spec_le(other),
    {
        match (self, other) {
            (Scalar::Nan, _) | (_, Scalar::Nan) => false,
            (Scalar::NegInf, _) => true,
            (_, Scalar::NegInf) => false,
            (_, Scalar::PosInf) => true,
            (Scalar::PosInf, _) => false,
            (Scalar::Fin(x), Scalar::Fin(y)) => x <= y,
        }
    }

    pub fn min(self, other: Scalar) -> (r: Scalar)
        ensures
            r == self.spec_min(other),
    {
        if self.is_nan() {
            other
        } else if other.is_nan() {
            self
        } else if self.le(other) {
            self
        } else {
            other
        }
    }

    pub fn max(self, other: Scalar) -> (r: Scalar)
        ensures
            r == self.spec_max(other),
    {
        if self.is_nan() {
            other
        } else if other.is_nan() {
            self
        } else if self.le(other) {
            other
        } else {
            self
        }
    }
}

/// The magnitude of a signed machine word, exact even at the minimum.
fn magnitude(x: i64) -> (r: u64)
    ensures
        r == mag(x as int),
{
    if x >= 0 {
        x as u64
    } else {
        (-(x as i128)) as u64
    }
}

proof fn lemma_i64_product_fits(x: int, y: int)
    requires
        i64::MIN <= x <= i64::MAX,
        i64::MIN <= y <= i64::MAX,
    ensures
        i128::MIN <= x * y <= i128::MAX,
{
    assert(i128::MIN <= x * y <= i128::MAX) by (nonlinear_arith)
        requires
            -0x8000_0000_0000_0000 <= x <= 0x7fff_ffff_ffff_ffff,
            -0x8000_0000_0000_0000 <= y <= 0x7fff_ffff_ffff_ffff,
    ;
}

/// Multiplication does not depend on the order of its operands, special
/// values included.
pub proof fn lemma_mul_comm(a: Scalar, b: Scalar)
    ensures
        a.spec_mul(b) == b.spec_mul(a),
{
}

/// Negating a difference swaps its operands. The one value without a finite
/// opposite is excluded: there the saturating negation loses the exact
/// difference.
pub proof fn lemma_sub_antisym(a: Scalar, b: Scalar)
    requires
        a.spec_sub(b) != Scalar::Fin(i64::MIN),
    ensures
        a.spec_sub(b) == b.spec_sub(a).spec_neg(),
{
}

/// Adding and then subtracting the same value is the identity, as long as
/// the intermediate sum stays representable.
pub proof fn lemma_add_sub_cancel(a: Scalar, b: Scalar)
    requires
        a is Fin,
        b is Fin,
        i64::MIN <= a.val() + b.val() <= i64::MAX,
    ensures
        a.spec_add(b).spec_sub(b) == a,
{
}

/// Multiplying and then dividing by the same nonzero value is the identity,
/// as long as the intermediate product stays representable: the truncation
/// of division is exact on an exact multiple.
pub proof fn lemma_mul_div_cancel(a: Scalar, s: Scalar)
    requires
        a is Fin,
        s is Fin,
        s.val() != 0,
        i64::MIN <= a.val() * s.val() <= i64::MAX,
    ensures
        a.spec_mul(s).spec_div(s) == a,
{
    let x = a.val();
    let k = s.val();
    let p = x * k;
    let mx = mag(x);
    let mk = mag(k);
    let mp = mag(p);
    assert(mp == mx * mk) by (nonlinear_arith)
        requires
            p == x * k,
            mx == (if x < 0 { -x } else { x }),
            mk == (if k < 0 { -k } else { k }),
            mp == (if p < 0 { -p } else { p }),
    ;
    assert(mx * mk / mk == mx) by (nonlinear_arith)
        requires
            mk > 0,
            mx >= 0,
    ;
    if x == 0 {
        assert(p == 0) by (nonlinear_arith)
            requires
                x == 0,
                p == x * k,
        ;
        assert(div_trunc(p, k) == 0);
    } else {
        assert((p < 0) == ((x < 0) != (k < 0))) by (nonlinear_arith)
            requires
                x != 0,
                k != 0,
                p == x * k,
        ;
        assert(div_trunc(p, k) == x);
    }
}

/// Negation is an involution away from the one value whose opposite
/// saturates.
pub proof fn lemma_neg_involution(a: Scalar)
    requires
        a != Scalar::Fin(i64::MIN),
    ensures
        a.spec_neg().spec_neg() == a,
{
}

/// One is the unit of multiplication on finite values.
pub proof fn lemma_mul_one(a: Scalar)
    requires
        a is Fin,
    ensures
        a.spec_mul(Scalar::Fin(1)) == a,
{
    match a {
        Scalar::Fin(x) => {
            assert(a.spec_mul(Scalar::Fin(1)) == clamp(x as int * 1));
            assert(clamp(x as int * 1) == Scalar::Fin(x));
        },
        _ => {},
    }
}

/// Zero annihilates a finite factor.
pub proof fn lemma_mul_zero(a: Scalar)
    requires
        a is Fin,
    ensures
        a.spec_mul(Scalar::Fin(0)) == Scalar::Fin(0),
{
    match a {
        Scalar::Fin(x) => {
            assert(a.spec_mul(Scalar::Fin(0)) == clamp(x as int * 0));
        },
        _ => {},
    }
}

/// Zero is the unit of addition on finite values, on either side.
pub proof fn lemma_add_zero(a: Scalar)
    requires
        a is Fin,
    ensures
        a.spec_add(Scalar::Fin(0)) == a,
        Scalar::Fin(0).spec_add(a) == a,
{
    match a {
        Scalar::Fin(x) => {
            assert(a.spec_add(Scalar::Fin(0)) == clamp(x as int + 0));
            assert(Scalar::Fin(0).spec_add(a) == clamp(0 + x as int));
            assert(clamp(x as int) == Scalar::Fin(x));
        },
        _ => {},
    }
}

/// The ordering is reflexive and transitive on the values that are not
/// `Nan`.
pub proof fn lemma_le_refl(a: Scalar)
    requires
        !(a is Nan),
    ensures
        a.spec_le(a),
{
}

/// The ordering composes.
pub proof fn lemma_le_trans(a: Scalar, b: Scalar, c: Scalar)
    requires
        a.spec_le(b),
        b.spec_le(c),
    ensures
        a.spec_le(c),
{
}

/// The minimum of two numbers is below both.
pub proof fn lemma_min_le_both(a: Scalar, b: Scalar)
    requires
        !(a is Nan),
        !(b is Nan),
    ensures
        a.spec_min(b).spec_le(a),
        a.spec_min(b).spec_le(b),
{
}

/// The maximum of two numbers is above both.
pub proof fn lemma_max_ge_both(a: Scalar, b: Scalar)
    requires
        !(a is Nan),
        !(b is Nan),
    ensures
        a.spec_le(a.spec_max(b)),
        b.spec_le(a.spec_max(b)),
{
}

/// The minimum does not depend on the order of its operands.
pub proof fn lemma_min_comm(a: Scalar, b: Scalar)
    ensures
        a.spec_min(b) == b.spec_min(a),
{
}

/// The maximum does not depend on the order of its operands.
pub proof fn lemma_max_comm(a: Scalar, b: Scalar)
    ensures
        a.spec_max(b) == b.spec_max(a),
{
}

/// The minimum associates: it keeps the least of the operands that are
/// numbers, and is `Nan` only when every operand is.
pub proof fn lemma_min_assoc(a: Scalar, b: Scalar, c: Scalar)
    ensures
        a.spec_min(b).spec_min(c) == a.spec_min(b.spec_min(c)),
{
}

/// The maximum associates.
pub proof fn lemma_max_assoc(a: Scalar, b: Scalar, c: Scalar)
    ensures
        a.spec_max(b).spec_max(c) == a.spec_max(b.spec_max(c)),
{
}

/// The elementwise operations shared by the vector and matrix types: every
/// arithmetic operator of the kernel is one of these four, applied
/// component by component.
#[derive(Clone, Copy, Debug, PartialEq, Eq, Structural)]
pub enum BinOp {
    Add,
    Sub,
    Mul,
    Div,
}

/// The meaning of one elementwise operation on two scalars.
pub open spec fn scalar_op(op: BinOp, a: Scalar, b: Scalar) -> Scalar {
    match op {
        BinOp::Add => a.spec_add(b),
        BinOp::Sub => a.spec_sub(b),
        BinOp::Mul => a.spec_mul(b),
        BinOp::Div => a.spec_div(b),
    }
}

/// Performs one elementwise operation on two scalars.
pub fn apply_op(op: BinOp, a: Scalar, b: Scalar) -> (r: Scalar)
    ensures
        r == scalar_op(op, a, b),
{
    match op {
        BinOp::Add => a.add(b),
        BinOp::Sub => a.sub(b),
        BinOp::Mul => a.mul(b),
        BinOp::Div => a.div(b),
    }
}

} // verus!

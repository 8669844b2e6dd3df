use vstd::prelude::*;

use crate::scalar::BinOp;
use crate::scalar::Scalar;
use crate::scalar::scalar_op;
use crate::scalar::apply_op;
use crate::scalar::lemma_add_zero;
use crate::scalar::lemma_mul_one;
use crate::scalar::lemma_mul_zero;
use crate::traits::Dot;
use crate::vec::Vec2;
use crate::vec::Vec3;

verus! {

/// A square matrix of two rows, row-major in flat storage.
#[derive(Debug)]
pub struct Mat2 {
    data: Vec<Scalar>,
}

/// A square matrix of three rows, row-major in flat storage.
#[derive(Debug)]
pub struct Mat3 {
    data: Vec<Scalar>,
}

/// One elementwise operation applied entry by entry over two equally long
/// flat storages.
pub open spec fn seq_zip(op: BinOp, a: Seq<Scalar>, b: Seq<Scalar>) -> Seq<Scalar> {
    Seq::new(a.len(), |i: int| scalar_op(op, a[i], b[i]))
}

/// One elementwise operation applied with the same scalar on every entry of
/// a flat storage.
pub open spec fn seq_broadcast(op: BinOp, a: Seq<Scalar>, s: Scalar) -> Seq<Scalar> {
    Seq::new(a.len(), |i: int| scalar_op(op, a[i], s))
}

/// The flat storage of the two-row identity.
pub open spec fn mat2_identity_data() -> Seq<Scalar> {
    seq![Scalar::Fin(1), Scalar::Fin(0), Scalar::Fin(0), Scalar::Fin(1)]
}

/// The flat storage of the three-row identity.
pub open spec fn mat3_identity_data() -> Seq<Scalar> {
    seq![
        Scalar::Fin(1),
        Scalar::Fin(0),
        Scalar::Fin(0),
        Scalar::Fin(0),
        Scalar::Fin(1),
        Scalar::Fin(0),
        Scalar::Fin(0),
        Scalar::Fin(0),
        Scalar::Fin(1),
    ]
}

/// The shared elementwise helper that every matrix-matrix operator is one
/// call of, whatever the component count.
fn zip_data(op: BinOp, a: &Vec<Scalar>, b: &Vec<Scalar>) -> (r: Vec<Scalar>)
    requires
        a@.len() == b@.len(),
    ensures
        r@ == seq_zip(op, a@, b@),
{
    let mut out: Vec<Scalar> = Vec::new();
    let mut i: usize = 0;
    while i < a.len()
        invariant
            i <= a@.len(),
            a@.len() == b@.len(),
            out@.len() == i as int,
            forall|j: int| 0 <= j < i as int ==> out@[j] == scalar_op(op, a@[j], b@[j]),
        decreases a@.len() - i,
    {
        out.push(apply_op(op, a[i], b[i]));
        i = i + 1;
    }
    proof {
        assert(out@ =~= seq_zip(op, a@, b@));
    }
    out
}

/// The shared elementwise helper that every matrix-scalar operator is one
/// call of.
fn map_data(op: BinOp, a: &Vec<Scalar>, s: Scalar) -> (r: Vec<Scalar>)
    ensures
        r@ == seq_broadcast(op, a@, s),
{
    let mut out: Vec<Scalar> = Vec::new();
    let mut i: usize = 0;
    while i < a.len()
        invariant
            i <= a@.len(),
            out@.len() == i as int,
            forall|j: int| 0 <= j < i as int ==> out@[j] == scalar_op(op, a@[j], s),
        decreases a@.len() - i,
    {
        out.push(apply_op(op, a[i], s));
        i = i + 1;
    }
    proof {
        assert(out@ =~= seq_broadcast(op, a@, s));
    }
    out
}

/// A fresh storage of `n` zero entries.
fn zero_data(n: usize) -> (r: Vec<Scalar>)
    ensures
        r@.len() == n as int,
        forall|j: int| 0 <= j < n as int ==> r@[j] == Scalar::Fin(0),
{
    let mut out: Vec<Scalar> = Vec::new();
    let mut i: usize = 0;
    while i < n
        invariant
            i <= n,
            out@.len() == i as int,
            forall|j: int| 0 <= j < i as int ==> out@[j] == Scalar::Fin(0),
        decreases n - i,
    {
        out.push(Scalar::Fin(0));
        i = i + 1;
    }
    out
}

impl View for Mat2 {
    type V = Seq<Scalar>;

    closed spec fn view(&self) -> Seq<Scalar> {
        self.data@
    }
}

impl Mat2 {
    /// The storage holds exactly the four entries of the matrix.
    pub open spec fn wf(self) -> bool {
        self@.len() == 4
    }

    pub fn new(data: Vec<Scalar>) -> (r: Mat2)
        requires
            data@.len() == 4,
        ensures
            r@ == data@,
    {
        Mat2 { data }
    }

    pub fn zero() -> (r: Mat2)
        ensures
            r.wf(),
            forall|j: int| 0 <= j < 4 ==> r@[j] == Scalar::Fin(0),
    {
        Mat2 { data: zero_data(4) }
    }

    pub fn identity() -> (r: Mat2)
        ensures
            r@ == mat2_identity_data(),
    {
        let mut data: Vec<Scalar> = Vec::new();
        data.push(Scalar::Fin(1));
        data.push(Scalar::Fin(0));
        data.push(Scalar::Fin(0));
        data.push(Scalar::Fin(1));
        proof {
            assert(data@ =~= mat2_identity_data());
        }
        Mat2 { data }
    }

    pub fn size() -> (r: usize)
        ensures
            r == 4,
    {
        4
    }

    /// One entry of the flat row-major storage. The bound is a
    /// precondition, discharged statically, so the access carries no
    /// run-time check in any build.
    pub fn at(&self, idx: usize) -> (r: Scalar)
        requires
            self.wf(),
            idx < 4,
        ensures
            r == self@[idx as int],
    {
        self.data[idx]
    }

    pub fn add(self, other: Mat2) -> (r: Mat2)
        requires
            self.wf(),
            other.wf(),
        ensures
            r@ == seq_zip(BinOp::Add, self@, other@),
    {
        Mat2 { data: zip_data(BinOp::Add, &self.data, &other.data) }
    }

    pub fn sub(self, other: Mat2) -> (r: Mat2)
        requires
            self.wf(),
            other.wf(),
        ensures
            r@ == seq_zip(BinOp::Sub, self@, other@),
    {
        Mat2 { data: zip_data(BinOp::Sub, &self.data, &other.data) }
    }

    /// Elementwise product, not the linear-algebra product; the one linear
    /// map of the kernel is `dot`.
    pub fn mul(self, other: Mat2) -> (r: Mat2)
        requires
            self.wf(),
            other.wf(),
        ensures
            r@ == seq_zip(BinOp::Mul, self@, other@),
    {
        Mat2 { data: zip_data(BinOp::Mul, &self.data, &other.data) }
    }

    pub fn div(self, other: Mat2) -> (r: Mat2)
        requires
            self.wf(),
            other.wf(),
        ensures
            r@ == seq_zip(BinOp::Div, self@, other@),
    {
        Mat2 { data: zip_data(BinOp::Div, &self.data, &other.data) }
    }

    pub fn add_scalar(self, s: Scalar) -> (r: Mat2)
        requires
            self.wf(),
        ensures
            r@ == seq_broadcast(BinOp::Add, self@, s),
    {
        Mat2 { data: map_data(BinOp::Add, &self.data, s) }
    }

    pub fn sub_scalar(self, s: Scalar) -> (r: Mat2)
        requires
            self.wf(),
        ensures
            r@ == seq_broadcast(BinOp::Sub, self@, s),
    {
        Mat2 { data: map_data(BinOp::Sub, &self.data, s) }
    }

    pub fn mul_scalar(self, s: Scalar) -> (r: Mat2)
        requires
            self.wf(),
        ensures
            r@ == seq_broadcast(BinOp::Mul, self@, s),
    {
        Mat2 { data: map_data(BinOp::Mul, &self.data, s) }
    }

    pub fn div_scalar(self, s: Scalar) -> (r: Mat2)
        requires
            self.wf(),
        ensures
            r@ == seq_broadcast(BinOp::Div, self@, s),
    {
        Mat2 { data: map_data(BinOp::Div, &self.data, s) }
    }
}

impl Dot<Vec2> for Mat2 {
    type Output = Vec2;

    open spec fn dot_req(&self, other: &Vec2) -> bool {
        self.wf()
    }

    /// Component `i` of the result is the inner product of row `i` with the
    /// operand: the matrix acts on the vector from the left.
    open spec fn dot_spec(&self, other: &Vec2) -> Vec2 {
        Vec2 {
            x: other.x.spec_mul(self@[0]).spec_add(other.y.spec_mul(self@[1])),
            y: other.x.spec_mul(self@[2]).spec_add(other.y.spec_mul(self@[3])),
        }
    }

    fn dot(&self, other: &Vec2) -> (r: Vec2)
    {
        Vec2 {
            x: other.x.mul(self.data[0]).add(other.y.mul(self.data[1])),
            y: other.x.mul(self.data[2]).add(other.y.mul(self.data[3])),
        }
    }
}

impl View for Mat3 {
    type V = Seq<Scalar>;

    closed spec fn view(&self) -> Seq<Scalar> {
        self.data@
    }
}

impl Mat3 {
    /// The storage holds exactly the nine entries of the matrix.
    pub open spec fn wf(self) -> bool {
        self@.len() == 9
    }

    fn new(data: Vec<Scalar>) -> (r: Mat3)
        requires
            data@.len() == 9,
        ensures
            r@ == data@,
    {
        Mat3 { data }
    }

    fn zero() -> (r: Mat3)
        ensures
            r.wf(),
            forall|j: int| 0 <= j < 9 ==> r@[j] == Scalar::Fin(0),
    {
        Mat3 { data: zero_data(9) }
    }

    pub fn identity() -> (r: Mat3)
        ensures
            r@ == mat3_identity_data(),
    {
        let mut data: Vec<Scalar> = Vec::new();
        data.push(Scalar::Fin(1));
        data.push(Scalar::Fin(0));
        data.push(Scalar::Fin(0));
        data.push(Scalar::Fin(0));
        data.push(Scalar::Fin(1));
        data.push(Scalar::Fin(0));
        data.push(Scalar::Fin(0));
        data.push(Scalar::Fin(0));
        data.push(Scalar::Fin(1));
        proof {
            assert(data@ =~= mat3_identity_data());
        }
        Mat3 { data }
    }

    pub fn size() -> (r: usize)
        ensures
            r == 9,
    {
        9
    }

    /// One entry of the flat row-major storage, with the bound discharged
    /// statically.
    pub fn at(&self, idx: usize) -> (r: Scalar)
        requires
            self.wf(),
            idx < 9,
        ensures
            r == self@[idx as int],
    {
        self.data[idx]
    }

    pub fn add(self, other: Mat3) -> (r: Mat3)
        requires
            self.wf(),
            other.wf(),
        ensures
            r@ == seq_zip(BinOp::Add, self@, other@),
    {
        Mat3 { data: zip_data(BinOp::Add, &self.data, &other.data) }
    }

    pub fn sub(self, other: Mat3) -> (r: Mat3)
        requires
            self.wf(),
            other.wf(),
        ensures
            r@ == seq_zip(BinOp::Sub, self@, other@),
    {
        Mat3 { data: zip_data(BinOp::Sub, &self.data, &other.data) }
    }

    /// Elementwise product, as for `Mat2`.
    pub fn mul(self, other: Mat3) -> (r: Mat3)
        requires
            self.wf(),
            other.wf(),
        ensures
            r@ == seq_zip(BinOp::Mul, self@, other@),
    {
        Mat3 { data: zip_data(BinOp::Mul, &self.data, &other.data) }
    }

    pub fn div(self, other: Mat3) -> (r: Mat3)
        requires
            self.wf(),
            other.wf(),
        ensures
            r@ == seq_zip(BinOp::Div, self@, other@),
    {
        Mat3 { data: zip_data(BinOp::Div, &self.data, &other.data) }
    }

    pub fn add_scalar(self, s: Scalar) -> (r: Mat3)
        requires
            self.wf(),
        ensures
            r@ == seq_broadcast(BinOp::Add, self@, s),
    {
        Mat3 { data: map_data(BinOp::Add, &self.data, s) }
    }

    pub fn sub_scalar(self, s: Scalar) -> (r: Mat3)
        requires
            self.wf(),
        ensures
            r@ == seq_broadcast(BinOp::Sub, self@, s),
    {
        Mat3 { data: map_data(BinOp::Sub, &self.data, s) }
    }

    pub fn mul_scalar(self, s: Scalar) -> (r: Mat3)
        requires
            self.wf(),
        ensures
            r@ == seq_broadcast(BinOp::Mul, self@, s),
    {
        Mat3 { data: map_data(BinOp::Mul, &self.data, s) }
    }

    pub fn div_scalar(self, s: Scalar) -> (r: Mat3)
        requires
            self.wf(),
        ensures
            r@ == seq_broadcast(BinOp::Div, self@, s),
    {
        Mat3 { data: map_data(BinOp::Div, &self.data, s) }
    }
}

impl Dot<Vec3> for Mat3 {
    type Output = Vec3;

    open spec fn dot_req(&self, other: &Vec3) -> bool {
        self.wf()
    }

    /// Component `i` of the result is the inner product of row `i` with the
    /// operand.
    open spec fn dot_spec(&self, other: &Vec3) -> Vec3 {
        Vec3 {
            x: other.x.spec_mul(self@[0]).spec_add(other.y.spec_mul(self@[1])).spec_add(
                other.z.spec_mul(self@[2]),
            ),
            y: other.x.spec_mul(self@[3]).spec_add(other.y.spec_mul(self@[4])).spec_add(
                other.z.spec_mul(self@[5]),
            ),
            z: other.x.spec_mul(self@[6]).spec_add(other.y.spec_mul(self@[7])).spec_add(
                other.z.spec_mul(self@[8]),
            ),
        }
    }

    fn dot(&self, other: &Vec3) -> (r: Vec3)
    {
        Vec3 {
            x: other.x.mul(self.data[0]).add(other.y.mul(self.data[1])).add(
                other.z.mul(self.data[2]),
            ),
            y: other.x.mul(self.data[3]).add(other.y.mul(self.data[4])).add(
                other.z.mul(self.data[5]),
            ),
            z: other.x.mul(self.data[6]).add(other.y.mul(self.data[7])).add(
                other.z.mul(self.data[8]),
            ),
        }
    }
}

/// The identity matrix is the identity of the matrix-vector product on
/// finite vectors. On a vector with an infinite or not-a-number component
/// the law fails, as it does in floating arithmetic: a zero entry times an
/// infinity is not a number.
pub proof fn lemma_mat2_identity_dot(m: Mat2, v: Vec2)
    requires
        m@ == mat2_identity_data(),
        v.is_finite(),
    ensures
        m.dot_spec(&v) == v,
{
    assert(m@[0] == Scalar::Fin(1));
    assert(m@[1] == Scalar::Fin(0));
    assert(m@[2] == Scalar::Fin(0));
    assert(m@[3] == Scalar::Fin(1));
    lemma_mul_one(v.x);
    lemma_mul_one(v.y);
    lemma_mul_zero(v.x);
    lemma_mul_zero(v.y);
    lemma_add_zero(v.x);
    lemma_add_zero(v.y);
}

/// The three-row identity acts as the identity on finite vectors.
pub proof fn lemma_mat3_identity_dot(m: Mat3, v: Vec3)
    requires
        m@ == mat3_identity_data(),
        v.is_finite(),
    ensures
        m.dot_spec(&v) == v,
{
    assert(m@[0] == Scalar::Fin(1));
    assert(m@[1] == Scalar::Fin(0));
    assert(m@[2] == Scalar::Fin(0));
    assert(m@[3] == Scalar::Fin(0));
    assert(m@[4] == Scalar::Fin(1));
    assert(m@[5] == Scalar::Fin(0));
    assert(m@[6] == Scalar::Fin(0));
    assert(m@[7] == Scalar::Fin(0));
    assert(m@[8] == Scalar::Fin(1));
    lemma_mul_one(v.x);
    lemma_mul_one(v.y);
    lemma_mul_one(v.z);
    lemma_mul_zero(v.x);
    lemma_mul_zero(v.y);
    lemma_mul_zero(v.z);
    lemma_add_zero(v.x);
    lemma_add_zero(v.y);
    lemma_add_zero(v.z);
    assert(Scalar::Fin(0).spec_add(Scalar::Fin(0)) == Scalar::Fin(0));
}

} // verus!

use geom_kernel::Cross;
use geom_kernel::Dot;
use geom_kernel::Scalar;
use geom_kernel::Vec2;
use geom_kernel::Vec3;

fn vfin(v: i64) -> Scalar {
    Scalar::Fin(v)
}

fn vv2(x: i64, y: i64) -> Vec2 {
    Vec2 { x: vfin(x), y: vfin(y) }
}

fn vv3(x: i64, y: i64, z: i64) -> Vec3 {
    Vec3 { x: vfin(x), y: vfin(y), z: vfin(z) }
}

#[test]
fn v2_add() {
    assert_eq!(vv2(0, 0).add(vv2(1, 1)), vv2(1, 1));
}

#[test]
fn v2_add_s() {
    assert_eq!(vv2(1, 2).add_scalar(vfin(3)), vv2(4, 5));
}

#[test]
fn v2_sub() {
    assert_eq!(vv2(0, 0).sub(vv2(1, 1)), vv2(-1, -1));
}

#[test]
fn v2_sub_s() {
    assert_eq!(vv2(1, 2).sub_scalar(vfin(3)), vv2(-2, -1));
}

#[test]
fn v2_mul() {
    assert_eq!(vv2(2, 2).mul(vv2(3, 4)), vv2(6, 8));
}

#[test]
fn v2_mul_s() {
    assert_eq!(vv2(1, 2).mul_scalar(vfin(3)), vv2(3, 6));
}

#[test]
fn v2_div() {
    assert_eq!(vv2(3, 4).div(vv2(3, 2)), vv2(1, 2));
}

#[test]
fn v2_div_s() {
    assert_eq!(vv2(4, 8).div_scalar(vfin(2)), vv2(2, 4));
}

#[test]
fn v2_add_as() {
    let mut a = vv2(0, 0);
    a.add_assign(vv2(1, 1));
    assert_eq!(a, vv2(1, 1));
}

#[test]
fn v2_add_as_s() {
    let mut a = vv2(1, 2);
    a.add_scalar_assign(vfin(3));
    assert_eq!(a, vv2(4, 5));
}

#[test]
fn v2_sub_as() {
    let mut a = vv2(0, 0);
    a.sub_assign(vv2(1, 1));
    assert_eq!(a, vv2(-1, -1));
}

#[test]
fn v2_mul_as() {
    let mut a = vv2(2, 2);
    a.mul_assign(vv2(3, 4));
    assert_eq!(a, vv2(6, 8));
}

#[test]
fn v2_div_as_s() {
    let mut a = vv2(4, 8);
    a.div_scalar_assign(vfin(2));
    assert_eq!(a, vv2(2, 4));
}

#[test]
fn v3_add() {
    assert_eq!(vv3(0, 0, 0).add(vv3(1, 1, 1)), vv3(1, 1, 1));
}

#[test]
fn v3_add_s() {
    assert_eq!(vv3(1, 2, 3).add_scalar(vfin(3)), vv3(4, 5, 6));
}

#[test]
fn v3_sub() {
    assert_eq!(vv3(0, 0, 0).sub(vv3(1, 1, 1)), vv3(-1, -1, -1));
}

#[test]
fn v3_mul() {
    assert_eq!(vv3(2, 2, 2).mul(vv3(3, 4, 5)), vv3(6, 8, 10));
}

#[test]
fn v3_div() {
    assert_eq!(vv3(3, 4, 5).div(vv3(3, 2, 5)), vv3(1, 2, 1));
}

#[test]
fn v3_div_s() {
    assert_eq!(vv3(4, 8, 10).div_scalar(vfin(2)), vv3(2, 4, 5));
}

#[test]
fn v3_mul_as() {
    let mut a = vv3(2, 2, 2);
    a.mul_assign(vv3(3, 4, 5));
    assert_eq!(a, vv3(6, 8, 10));
}

#[test]
fn add_then_sub_restores() {
    let a = vv2(12, -7);
    let b = vv2(30, 44);
    assert_eq!(a.add(b).sub(b), a);
    let c = vv3(1, 2, 3);
    let d = vv3(-9, 8, 7);
    assert_eq!(c.add(d).sub(d), c);
}

#[test]
fn mul_then_div_restores() {
    let a = vv2(12, -7);
    assert_eq!(a.mul_scalar(vfin(5)).div_scalar(vfin(5)), a);
    let c = vv3(4, -5, 6);
    assert_eq!(c.mul_scalar(vfin(-3)).div_scalar(vfin(-3)), c);
}

#[test]
fn neg_neg_restores() {
    let a = vv2(12, -7);
    assert_eq!(a.neg().neg(), a);
    let c = vv3(4, -5, 6);
    assert_eq!(c.neg().neg(), c);
}

#[test]
fn dot_commutes() {
    let a = vv2(3, -2);
    let b = vv2(7, 5);
    assert_eq!(a.dot(&b), b.dot(&a));
    assert_eq!(a.dot(&b), vfin(11));
    let c = vv3(1, 2, 3);
    let d = vv3(-4, 5, -6);
    assert_eq!(c.dot(&d), d.dot(&c));
    assert_eq!(c.dot(&d), vfin(-12));
}

#[test]
fn cross_anticommutes() {
    let a = vv2(3, -2);
    let b = vv2(7, 5);
    assert_eq!(a.cross(&b), vfin(29));
    assert_eq!(b.cross(&a), vfin(-29));
    let c = vv3(1, 2, 3);
    let d = vv3(-4, 5, -6);
    assert_eq!(c.cross(&d), vv3(-27, -6, 13));
    assert_eq!(d.cross(&c), vv3(27, 6, -13));
}

#[test]
fn length_is_squared_magnitude() {
    // The squared magnitude, not the Euclidean norm: 25, not 5.
    assert_eq!(vv2(3, 4).length(), vfin(25));
    assert_eq!(vv3(1, 2, 2).length(), vfin(9));
}

#[test]
fn normalized_divides_by_squared_length() {
    // Exact division by the squared magnitude truncates toward zero.
    assert_eq!(vv2(3, 4).normalized(), vv2(0, 0));
    assert_eq!(vv2(50, 0).normalized(), vv2(0, 0));
    assert_eq!(vv2(1, 0).normalized(), vv2(1, 0));
}

#[test]
fn normalize_zero_vector_propagates_special_values() {
    // Dividing by the zero length is not guarded: 0 / 0 is Nan.
    let mut a = vv2(0, 0);
    a.normalize();
    assert_eq!(a, Vec2 { x: Scalar::Nan, y: Scalar::Nan });
    let r = vv3(0, 0, 0).normalized();
    assert_eq!(r, Vec3 { x: Scalar::Nan, y: Scalar::Nan, z: Scalar::Nan });
}

#[test]
fn scalar_division_by_zero_gives_infinities() {
    assert_eq!(vfin(7).div(vfin(0)), Scalar::PosInf);
    assert_eq!(vfin(-7).div(vfin(0)), Scalar::NegInf);
    assert_eq!(vfin(0).div(vfin(0)), Scalar::Nan);
}

#[test]
fn scalar_division_truncates_toward_zero() {
    assert_eq!(vfin(7).div(vfin(2)), vfin(3));
    assert_eq!(vfin(-7).div(vfin(2)), vfin(-3));
    assert_eq!(vfin(7).div(vfin(-2)), vfin(-3));
    assert_eq!(vfin(-7).div(vfin(-2)), vfin(3));
}

#[test]
fn scalar_overflow_saturates_to_infinity() {
    assert_eq!(vfin(i64::MAX).add(vfin(1)), Scalar::PosInf);
    assert_eq!(vfin(i64::MIN).sub(vfin(1)), Scalar::NegInf);
    assert_eq!(vfin(i64::MAX).mul(vfin(2)), Scalar::PosInf);
    assert_eq!(vfin(i64::MIN).mul(vfin(2)), Scalar::NegInf);
    assert_eq!(vfin(i64::MIN).neg(), Scalar::PosInf);
}

#[test]
fn scalar_nan_propagates() {
    assert_eq!(Scalar::PosInf.add(Scalar::NegInf), Scalar::Nan);
    assert_eq!(Scalar::PosInf.sub(Scalar::PosInf), Scalar::Nan);
    assert_eq!(vfin(0).mul(Scalar::PosInf), Scalar::Nan);
    assert_eq!(Scalar::Nan.add(vfin(1)), Scalar::Nan);
    assert_eq!(Scalar::PosInf.div(Scalar::PosInf), Scalar::Nan);
}

use geom_kernel::Dot;
use geom_kernel::Mat2;
use geom_kernel::Mat3;
use geom_kernel::Scalar;
use geom_kernel::Vec2;
use geom_kernel::Vec3;

fn mfin(v: i64) -> Scalar {
    Scalar::Fin(v)
}

fn mdata(vs: &[i64]) -> Vec<Scalar> {
    vs.iter().map(|v| Scalar::Fin(*v)).collect()
}

#[test]
fn mat2_identity_preserves_vector() {
    let v = Vec2 { x: mfin(17), y: mfin(-4) };
    assert_eq!(Mat2::identity().dot(&v), v);
}

#[test]
fn mat3_identity_preserves_vector() {
    let v = Vec3 { x: mfin(17), y: mfin(-4), z: mfin(9) };
    assert_eq!(Mat3::identity().dot(&v), v);
}

#[test]
fn mat2_dot_is_row_inner_product() {
    let m = Mat2::new(mdata(&[1, 2, 3, 4]));
    let v = Vec2 { x: mfin(5), y: mfin(7) };
    assert_eq!(m.dot(&v), Vec2 { x: mfin(19), y: mfin(43) });
}

#[test]
fn mat3_dot_is_row_inner_product() {
    let m = Mat3::identity().mul_scalar(mfin(2));
    let v = Vec3 { x: mfin(5), y: mfin(7), z: mfin(-1) };
    assert_eq!(m.dot(&v), Vec3 { x: mfin(10), y: mfin(14), z: mfin(-2) });
}

#[test]
fn mat2_add_is_elementwise() {
    let a = Mat2::new(mdata(&[1, 2, 3, 4]));
    let b = Mat2::new(mdata(&[10, 20, 30, 40]));
    let c = a.add(b);
    for (i, want) in [11, 22, 33, 44].iter().enumerate() {
        assert_eq!(c.at(i), mfin(*want));
    }
}

#[test]
fn mat2_mul_is_elementwise_not_linear_product() {
    let a = Mat2::new(mdata(&[1, 2, 3, 4]));
    let b = Mat2::new(mdata(&[5, 6, 7, 8]));
    let c = a.mul(b);
    for (i, want) in [5, 12, 21, 32].iter().enumerate() {
        assert_eq!(c.at(i), mfin(*want));
    }
}

#[test]
fn mat2_sub_div_scalar() {
    let a = Mat2::new(mdata(&[10, 20, 30, 40]));
    let c = a.sub_scalar(mfin(10));
    for (i, want) in [0, 10, 20, 30].iter().enumerate() {
        assert_eq!(c.at(i), mfin(*want));
    }
    let d = Mat2::new(mdata(&[10, 20, 30, 40])).div_scalar(mfin(10));
    for (i, want) in [1, 2, 3, 4].iter().enumerate() {
        assert_eq!(d.at(i), mfin(*want));
    }
}

#[test]
fn mat_zero_and_sizes() {
    let z = Mat2::zero();
    for i in 0..Mat2::size() {
        assert_eq!(z.at(i), mfin(0));
    }
    assert_eq!(Mat2::size(), 4);
    assert_eq!(Mat3::size(), 9);
}

#[test]
fn mat3_add_scalar() {
    let c = Mat3::identity().add_scalar(mfin(5));
    for (i, want) in [6, 5, 5, 5, 6, 5, 5, 5, 6].iter().enumerate() {
        assert_eq!(c.at(i), mfin(*want));
    }
}

use geom_kernel::Ray2D;
use geom_kernel::Scalar;
use geom_kernel::Vec2;

fn rpt(x: i64, y: i64) -> Vec2 {
    Vec2 { x: Scalar::Fin(x), y: Scalar::Fin(y) }
}

fn ray(ox: i64, oy: i64, dx: i64, dy: i64) -> Ray2D {
    Ray2D::new(rpt(ox, oy), rpt(dx, dy))
}

#[test]
fn rays_intersect_forward() {
    // From the origin along the horizontal axis, against a ray dropping
    // from (5, 5): they meet at (5, 0) with both parameters non-negative.
    let a = ray(0, 0, 1, 0);
    let b = ray(5, 5, 0, -1);
    assert_eq!(a.intersect(&b), Some(rpt(5, 0)));
}

#[test]
fn parallel_rays_do_not_intersect() {
    let a = ray(0, 0, 1, 1);
    let b = ray(3, 0, 2, 2);
    assert_eq!(a.intersect(&b), None);
}

#[test]
fn coincident_rays_do_not_intersect() {
    let a = ray(0, 0, 1, 1);
    let b = ray(2, 2, 1, 1);
    assert_eq!(a.intersect(&b), None);
}

#[test]
fn crossing_behind_an_origin_is_rejected() {
    // The underlying lines cross at (5, 0), but the second ray points away
    // from it: its parameter would be negative.
    let a = ray(0, 0, 1, 0);
    let b = ray(5, 5, 0, 1);
    assert_eq!(a.intersect(&b), None);
}

#[test]
fn crossing_behind_the_first_origin_is_rejected() {
    // The lines cross at (-5, 0), behind the first ray.
    let a = ray(0, 0, 1, 0);
    let b = ray(-5, 5, 0, -1);
    assert_eq!(a.intersect(&b), None);
}

#[test]
fn both_vertical_rays_report_nothing() {
    let a = ray(0, 0, 0, 1);
    let b = ray(5, 0, 0, -1);
    assert_eq!(a.intersect(&b), None);
}

#[test]
fn second_branch_solves_when_other_ray_is_vertical() {
    // The second ray is vertical, so the first branch cannot divide by its
    // horizontal component; the other branch solves the same system.
    let a = ray(0, 5, 1, -1);
    let b = ray(3, 0, 0, 1);
    assert_eq!(a.intersect(&b), Some(rpt(3, 2)));
}

#[test]
fn intersection_at_an_origin_counts() {
    let a = ray(0, 0, 1, 0);
    let b = ray(0, 0, 0, 1);
    assert_eq!(a.intersect(&b), Some(rpt(0, 0)));
}

use rust_raytracer::fixed::{Fx, SCALE};
use rust_raytracer::intersections::{hit, Intersection};
use rust_raytracer::ray::Ray;
use rust_raytracer::shape::{Shape, ShapeType};
use rust_raytracer::transform;
use rust_raytracer::tuple::{point, vector, Tuple};

fn fx(n: i64, d: i64) -> Fx {
    Fx::from_ratio(n, d)
}

fn fxi(i: i64) -> Fx {
    Fx::from_int(i)
}

fn p(x: i64, y: i64, z: i64) -> Tuple {
    point(fxi(x), fxi(y), fxi(z))
}

fn v(x: i64, y: i64, z: i64) -> Tuple {
    vector(fxi(x), fxi(y), fxi(z))
}

#[test]
fn ray_through_sphere_center_hits_twice_symmetrically() {
    let s = Shape::new(ShapeType::Sphere);
    let r = Ray::new(p(0, 0, -5), v(0, 0, 1));
    let ts = s.intersect(r);
    assert_eq!(2, ts.len());
    assert_eq!(fxi(4), ts[0]);
    assert_eq!(fxi(6), ts[1]);
    // symmetric about the closest approach at t = 5
    assert_eq!(ts[0].raw + ts[1].raw, 2 * fxi(5).raw);
}

#[test]
fn ray_tangent_to_sphere_gives_two_equal_roots() {
    let s = Shape::new(ShapeType::Sphere);
    let r = Ray::new(p(0, 1, -5), v(0, 0, 1));
    let ts = s.intersect(r);
    assert_eq!(2, ts.len());
    assert_eq!(fxi(5), ts[0]);
    assert_eq!(fxi(5), ts[1]);
}

#[test]
fn ray_missing_sphere_gives_no_intersection() {
    let s = Shape::new(ShapeType::Sphere);
    let r = Ray::new(p(0, 2, -5), v(0, 0, 1));
    let ts = s.intersect(r);
    assert_eq!(0, ts.len());
}

#[test]
fn ray_starting_inside_sphere_hits_before_and_behind() {
    let s = Shape::new(ShapeType::Sphere);
    let r = Ray::new(p(0, 0, 0), v(0, 0, 1));
    let ts = s.intersect(r);
    assert_eq!(2, ts.len());
    assert_eq!(fxi(-1), ts[0]);
    assert_eq!(fxi(1), ts[1]);
}

#[test]
fn ray_parallel_to_plane_misses_it() {
    let s = Shape::new(ShapeType::Plane);
    let r = Ray::new(p(0, 1, 0), v(0, 0, 1));
    let ts = s.intersect(r);
    assert_eq!(0, ts.len());
}

#[test]
fn ray_straight_down_crosses_plane_once() {
    let s = Shape::new(ShapeType::Plane);
    let r = Ray::new(p(0, 1, 0), v(0, -1, 0));
    let ts = s.intersect(r);
    assert_eq!(1, ts.len());
    assert_eq!(fxi(1), ts[0]);
}

#[test]
fn ray_straight_up_crosses_plane_once() {
    let s = Shape::new(ShapeType::Plane);
    let r = Ray::new(p(0, -1, 0), v(0, 1, 0));
    let ts = s.intersect(r);
    assert_eq!(1, ts.len());
    assert_eq!(fxi(1), ts[0]);
}

#[test]
fn hit_picks_smallest_nonnegative_t() {
    let xs = vec![
        Intersection::new(fxi(5), 0),
        Intersection::new(fxi(7), 0),
        Intersection::new(fxi(-3), 0),
        Intersection::new(fxi(2), 0),
    ];
    let h = hit(xs);
    assert_eq!(fxi(2), h.unwrap().t);
}

#[test]
fn hit_ignores_negative_t() {
    let xs = vec![Intersection::new(fxi(-1), 0), Intersection::new(fxi(1), 0)];
    let h = hit(xs);
    assert_eq!(fxi(1), h.unwrap().t);
}

#[test]
fn hit_of_all_negative_is_none() {
    let xs = vec![Intersection::new(fxi(-2), 0), Intersection::new(fxi(-1), 0)];
    assert!(hit(xs).is_none());
}

#[test]
fn hit_of_empty_set_is_none() {
    let xs: Vec<Intersection> = Vec::new();
    assert!(hit(xs).is_none());
}

#[test]
fn hit_at_exactly_zero_counts() {
    let xs = vec![Intersection::new(fxi(0), 0), Intersection::new(fxi(3), 0)];
    assert_eq!(fxi(0), hit(xs).unwrap().t);
}

#[test]
fn normal_on_translated_sphere_ignores_translation() {
    let mut s = Shape::new(ShapeType::Sphere);
    s.transform = transform::translate(fxi(0), fxi(1), fxi(0));
    let n = s.normal(p(0, 2, 0));
    assert_eq!(v(0, 1, 0), n);
}

#[test]
fn normal_of_plane_is_up_everywhere() {
    let s = Shape::new(ShapeType::Plane);
    assert_eq!(v(0, 1, 0), s.normal(p(0, 0, 0)));
    assert_eq!(v(0, 1, 0), s.normal(p(10, 0, -10)));
}

#[test]
fn normal_on_scaled_sphere_uses_inverse_transpose() {
    let mut s = Shape::new(ShapeType::Sphere);
    s.transform = transform::scale(fxi(1), fx(1, 2), fxi(1));
    // point on the squashed sphere's equator-ish latitude
    let rt = fx(7071068, 10000000);
    let n = s.normal(point(fxi(0), rt, rt.neg()));
    // the normal leans more along y than the forward-transformed local
    // normal would: y component ~0.97, z ~ -0.24
    assert!((n.y.raw - 9_701_425).abs() <= 2000, "y {}", n.y.raw);
    assert!((n.z.raw + 2_425_356).abs() <= 2000, "z {}", n.z.raw);
    assert_eq!(0, n.w.raw);
    // and it is unit length
    let len2 = n.dot(n);
    assert!((len2.raw - SCALE).abs() <= 10, "len2 {}", len2.raw);
}

#[test]
fn fixed_point_arithmetic_rounds_to_nearest() {
    assert_eq!(5_000_000, fx(1, 2).raw);
    assert_eq!(3_333_333, fx(1, 3).raw);
    assert_eq!(6_666_667, fx(2, 3).raw);
    assert_eq!(fxi(6), fxi(2).mul(fxi(3)));
    assert_eq!(fxi(2), fxi(4).sqrt());
    // the square root truncates to the step below
    assert_eq!(Fx { raw: 14_142_135 }, fxi(2).sqrt());
    assert_eq!(Fx { raw: 0 }, fxi(1).div(fxi(0)));
    // sqrt(2)/2 squared, doubled, lands back on one
    let rt = fx(7071068, 10000000);
    assert_eq!(fxi(1), rt.mul(rt).add(rt.mul(rt)));
}

#[test]
fn fixed_point_power_of_half_underflows() {
    // (1/2)^200 is far below one step; rounding halves away from zero
    // leaves the iterated product stuck at the single smallest step
    assert_eq!(1, fx(1, 2).pow(200).raw);
    assert_eq!(fxi(1), fxi(1).pow(200));
    assert_eq!(fxi(8), fxi(2).pow(3));
    assert_eq!(fxi(1), fxi(5).pow(0));
}

use rust_raytracer::color::Color;
use rust_raytracer::fixed::Fx;
use rust_raytracer::intersections::Intersection;
use rust_raytracer::lights::PointLight;
use rust_raytracer::materials::Material;
use rust_raytracer::ray::Ray;
use rust_raytracer::shape::{Shape, ShapeType};
use rust_raytracer::transform;
use rust_raytracer::tuple::{point, vector, Tuple};
use rust_raytracer::world::{World, OVER_POINT_EPS_RAW};

fn fx(n: i64, d: i64) -> Fx {
    Fx::from_ratio(n, d)
}

fn fxi(i: i64) -> Fx {
    Fx::from_int(i)
}

fn p(x: i64, y: i64, z: i64) -> Tuple {
    point(fxi(x), fxi(y), fxi(z))
}

fn v(x: i64, y: i64, z: i64) -> Tuple {
    vector(fxi(x), fxi(y), fxi(z))
}

fn assert_color_near(a: Color, b: Color, tol_raw: i64) {
    assert!((a.red.raw - b.red.raw).abs() <= tol_raw, "red {} vs {}", a.red.raw, b.red.raw);
    assert!((a.green.raw - b.green.raw).abs() <= tol_raw, "green {} vs {}", a.green.raw, b.green.raw);
    assert!((a.blue.raw - b.blue.raw).abs() <= tol_raw, "blue {} vs {}", a.blue.raw, b.blue.raw);
}

#[test]
fn creating_a_default_world() {
    let w = World::default();
    let expected_light = PointLight::new(Color::new(fxi(1), fxi(1), fxi(1)), p(-10, 10, -10));

    let mut expected_material = Material::new();
    expected_material.color = Color::new(fx(8, 10), fxi(1), fx(6, 10));
    expected_material.diffuse = fx(7, 10);
    expected_material.specular = fx(2, 10);

    let half = fx(1, 2);
    let expected_transform = transform::identity().mul(transform::scale(half, half, half));

    assert_eq!(expected_light, w.light);
    assert_eq!(transform::identity(), w.shapes[0].transform);
    assert_eq!(expected_material, w.shapes[0].material);
    assert_eq!(expected_transform, w.shapes[1].transform);
    assert_eq!(Material::new(), w.shapes[1].material);
}

#[test]
fn intersect_a_world_with_a_ray() {
    let w = World::default();
    let r = Ray::new(p(0, 0, -5), v(0, 0, 1));
    let xs = w.intersect(r);
    assert_eq!(4, xs.len());
    assert_eq!(fxi(4), xs[0].t);
    assert_eq!(fx(9, 2), xs[1].t);
    assert_eq!(fx(11, 2), xs[2].t);
    assert_eq!(fxi(6), xs[3].t);
}

#[test]
fn precomputing_the_state_of_an_intersection() {
    let mut w = World::new();
    let s = Shape::new(ShapeType::Sphere);
    w.shapes.push(s);
    let r = Ray::new(p(0, 0, -5), v(0, 0, 1));
    let i = Intersection::new(fxi(4), 0);
    let c = w.prepare_computations(i, r);
    assert_eq!(c.t, i.t);
    assert_eq!(c.shape, 0);
    assert_eq!(c.point, p(0, 0, -1));
    assert_eq!(c.eyev, v(0, 0, -1));
    assert_eq!(c.normalv, v(0, 0, -1));
}

#[test]
fn hit_when_interserction_occurs_on_the_outside() {
    let mut w = World::new();
    let s = Shape::new(ShapeType::Sphere);
    w.shapes.push(s);
    let r = Ray::new(p(0, 0, -5), v(0, 0, 1));
    let i = Intersection::new(fxi(4), 0);
    let c = w.prepare_computations(i, r);
    assert_eq!(c.inside, false);
}

#[test]
fn hit_when_interserction_occurs_on_the_inside() {
    let mut w = World::new();
    let s = Shape::new(ShapeType::Sphere);
    w.shapes.push(s);
    let r = Ray::new(p(0, 0, 0), v(0, 0, 1));
    let i = Intersection::new(fxi(1), 0);
    let c = w.prepare_computations(i, r);
    assert_eq!(c.point, p(0, 0, 1));
    assert_eq!(c.eyev, v(0, 0, -1));
    assert_eq!(c.inside, true);
    assert_eq!(c.normalv, v(0, 0, -1));
}

#[test]
fn hit_should_offset_the_point() {
    let mut w = World::new();
    let mut s = Shape::new(ShapeType::Sphere);
    s.transform = transform::translate(fxi(0), fxi(0), fxi(1));
    w.shapes.push(s);
    let r = Ray::new(p(0, 0, -5), v(0, 0, 1));
    let i = Intersection::new(fxi(5), 0);
    let comps = w.prepare_computations(i, r);
    assert!(comps.over_point.z.raw < -OVER_POINT_EPS_RAW / 2);
    assert!(comps.point.z.raw > comps.over_point.z.raw);
}

#[test]
fn shading_an_intersection() {
    let w = World::default();
    let r = Ray::new(p(0, 0, -5), v(0, 0, 1));
    let i = Intersection::new(fxi(4), 0);
    let com = w.prepare_computations(i, r);
    let col = w.shade_hit(com);
    assert_color_near(
        col,
        Color::new(fx(38066, 100000), fx(47583, 100000), fx(2855, 10000)),
        1000,
    );
}

#[test]
fn shading_an_intersection_from_the_inside() {
    let mut w = World::default();
    w.light = PointLight::new(Color::new(fxi(1), fxi(1), fxi(1)), point(fxi(0), fx(1, 4), fxi(0)));
    let r = Ray::new(p(0, 0, 0), v(0, 0, 1));
    let i = Intersection::new(fx(1, 2), 1);
    let com = w.prepare_computations(i, r);
    let col = w.shade_hit(com);
    assert_color_near(col, Color::new(fx(90498, 100000), fx(90498, 100000), fx(90498, 100000)), 1000);
}

#[test]
fn interection_in_shadow() {
    let mut w = World::default();
    w.light = PointLight::new(Color::white(), p(0, 0, -10));
    w.shapes[1].transform = w.shapes[1].transform.mul(transform::translate(fxi(0), fxi(0), fxi(10)));
    let r = Ray::new(p(0, 0, 5), v(0, 0, 1));
    let i = Intersection::new(fxi(4), 1);
    let comps = w.prepare_computations(i, r);
    assert_eq!(Color::new(fx(1, 10), fx(1, 10), fx(1, 10)), w.shade_hit(comps));
}

#[test]
fn the_color_when_a_ray_misses() {
    let w = World::default();
    let r = Ray::new(p(0, 0, -5), v(0, 1, 0));
    let c = w.color_at(r);
    assert_eq!(c, Color::new(fxi(0), fxi(0), fxi(0)));
}

#[test]
fn the_color_when_a_ray_hits() {
    let w = World::default();
    let r = Ray::new(p(0, 0, -5), v(0, 0, 1));
    let c = w.color_at(r);
    assert_color_near(
        c,
        Color::new(fx(38066, 100000), fx(47583, 100000), fx(2855, 10000)),
        1000,
    );
}

#[test]
fn the_color_when_an_intersection_behind_the_ray() {
    let mut w = World::default();
    w.shapes[0].material.ambient = fxi(1);
    w.shapes[1].material.ambient = fxi(1);
    let r = Ray::new(point(fxi(0), fxi(0), fx(3, 4)), v(0, 0, -1));
    let c = w.color_at(r);
    assert_color_near(c, w.shapes[1].material.color, 1000);
}

#[test]
fn no_shadow_when_nothing_is_collinear_with_point_and_light() {
    let w = World::default();
    assert_eq!(false, w.is_shadowed(p(0, 10, 0)));
}

#[test]
fn shadow_when_an_object_is_between_the_point_and_the_light() {
    let w = World::default();
    assert_eq!(true, w.is_shadowed(p(10, -10, 10)));
}

#[test]
fn no_shadow_when_an_object_is_behind_the_light() {
    let w = World::default();
    assert_eq!(false, w.is_shadowed(p(-20, 20, -20)));
}

#[test]
fn no_shadow_when_an_object_is_behind_the_point() {
    let w = World::default();
    assert_eq!(false, w.is_shadowed(p(-2, 2, -2)));
}

#[test]
fn color_at_twice_gives_the_same_color() {
    let w = World::default();
    let r = Ray::new(p(0, 0, -5), v(0, 0, 1));
    let first = w.color_at(r);
    let second = w.color_at(r);
    assert_eq!(first, second);
}

#[test]
fn empty_world_sees_black_everywhere() {
    let w = World::new();
    let r = Ray::new(p(0, 0, -5), v(0, 0, 1));
    assert_eq!(Color::black(), w.color_at(r));
}

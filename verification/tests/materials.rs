use rust_raytracer::color::Color;
use rust_raytracer::fixed::Fx;
use rust_raytracer::lights::PointLight;
use rust_raytracer::materials::Material;
use rust_raytracer::tuple::{point, vector, Tuple};

fn fx(n: i64, d: i64) -> Fx {
    Fx::from_ratio(n, d)
}

fn fxi(i: i64) -> Fx {
    Fx::from_int(i)
}

fn p(x: i64, y: i64, z: i64) -> Tuple {
    point(fxi(x), fxi(y), fxi(z))
}

fn v(x: i64, y: i64, z: i64) -> Tuple {
    vector(fxi(x), fxi(y), fxi(z))
}

fn gray(n: i64, d: i64) -> Color {
    Color::new(fx(n, d), fx(n, d), fx(n, d))
}

fn assert_color_near(a: Color, b: Color, tol_raw: i64) {
    assert!((a.red.raw - b.red.raw).abs() <= tol_raw, "red {} vs {}", a.red.raw, b.red.raw);
    assert!((a.green.raw - b.green.raw).abs() <= tol_raw, "green {} vs {}", a.green.raw, b.green.raw);
    assert!((a.blue.raw - b.blue.raw).abs() <= tol_raw, "blue {} vs {}", a.blue.raw, b.blue.raw);
}

#[test]
fn defaut_material() {
    let m = Material::new();
    assert_eq!(Color::new(fxi(1), fxi(1), fxi(1)), m.color);
    assert_eq!(fx(1, 10), m.ambient);
    assert_eq!(fx(9, 10), m.diffuse);
    assert_eq!(fx(9, 10), m.specular);
    assert_eq!(200, m.shininess);
}

#[test]
fn lighting_with_eye_between_light_and_surface() {
    let m = Material::new();
    let position = p(0, 0, 0);
    let eyev = v(0, 0, -1);
    let normalv = v(0, 0, -1);
    let light = PointLight::new(Color::new(fxi(1), fxi(1), fxi(1)), p(0, 0, -10));
    let result = m.lighting(light, position, eyev, normalv, false);
    assert_eq!(gray(19, 10), result);
}

#[test]
fn lighting_with_eye_between_light_and_surface_eye_offset_45_deg() {
    let m = Material::new();
    let position = p(0, 0, 0);
    // sqrt(2)/2, to the nearest representable step
    let rt = fx(7071068, 10000000);
    let eyev = vector(fxi(0), rt, rt);
    let normalv = v(0, 0, -1);
    let light = PointLight::new(Color::new(fxi(1), fxi(1), fxi(1)), p(0, 0, -10));
    let result = m.lighting(light, position, eyev, normalv, false);
    assert_eq!(gray(1, 1), result);
}

#[test]
fn lighting_with_eye_opposite_surface_light_offset_45_deg() {
    let m = Material::new();
    let position = p(0, 0, 0);
    let eyev = v(0, 0, -1);
    let normalv = v(0, 0, -1);
    let light = PointLight::new(Color::new(fxi(1), fxi(1), fxi(1)), p(0, 10, -10));
    let result = m.lighting(light, position, eyev, normalv, false);
    assert_color_near(gray(7364, 10000), result, 100);
}

#[test]
fn lighting_with_eye_in_path_of_the_reflection_vector() {
    let m = Material::new();
    let position = p(0, 0, 0);
    let rt = fx(7071068, 10000000);
    let eyev = vector(fxi(0), rt.neg(), rt.neg());
    let normalv = v(0, 0, -1);
    let light = PointLight::new(Color::new(fxi(1), fxi(1), fxi(1)), p(0, 10, -10));
    let result = m.lighting(light, position, eyev, normalv, false);
    assert_color_near(gray(16364, 10000), result, 100);
}

#[test]
fn lighting_light_behind_surface() {
    let m = Material::new();
    let position = p(0, 0, 0);
    let eyev = v(0, 0, -1);
    let normalv = v(0, 0, -1);
    let light = PointLight::new(Color::new(fxi(1), fxi(1), fxi(1)), p(0, 0, 10));
    let result = m.lighting(light, position, eyev, normalv, false);
    assert_eq!(gray(1, 10), result);
}

#[test]
fn lighting_in_shadow_keeps_only_ambient() {
    let m = Material::new();
    let position = p(0, 0, 0);
    let eyev = v(0, 0, -1);
    let normalv = v(0, 0, -1);
    let light = PointLight::new(Color::new(fxi(1), fxi(1), fxi(1)), p(0, 0, -10));
    let result = m.lighting(light, position, eyev, normalv, true);
    assert_eq!(gray(1, 10), result);
}

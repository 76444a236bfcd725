use rust_raytracer::camera::{view_transform, Camera};
use rust_raytracer::color::Color;
use rust_raytracer::fixed::Fx;
use rust_raytracer::tuple::{point, vector, Tuple};
use rust_raytracer::world::World;

fn fx(n: i64, d: i64) -> Fx {
    Fx::from_ratio(n, d)
}

fn fxi(i: i64) -> Fx {
    Fx::from_int(i)
}

fn p(x: i64, y: i64, z: i64) -> Tuple {
    point(fxi(x), fxi(y), fxi(z))
}

fn v(x: i64, y: i64, z: i64) -> Tuple {
    vector(fxi(x), fxi(y), fxi(z))
}

#[test]
fn pixel_size_for_a_landscape_canvas() {
    // half_view = tan(pi/4) = 1
    let c = Camera::new(200, 125, fxi(1));
    assert_eq!(fx(1, 100), c.pixel_size);
    assert_eq!(fxi(1), c.half_width);
}

#[test]
fn pixel_size_for_a_portrait_canvas() {
    let c = Camera::new(125, 200, fxi(1));
    assert_eq!(fx(1, 100), c.pixel_size);
    assert_eq!(fxi(1), c.half_height);
}

#[test]
fn ray_through_the_center_of_the_canvas() {
    let c = Camera::new(201, 101, fxi(1));
    let r = c.ray_for_pixel(100, 50);
    assert_eq!(p(0, 0, 0), r.origin);
    // direction is (0, 0, -1) to within a pixel's rounding
    assert!(r.direction.x.raw.abs() <= 100);
    assert!(r.direction.y.raw.abs() <= 100);
    assert!((r.direction.z.raw + 10_000_000).abs() <= 100);
}

#[test]
fn ray_through_a_corner_of_the_canvas() {
    let c = Camera::new(201, 101, fxi(1));
    let r = c.ray_for_pixel(0, 0);
    assert_eq!(p(0, 0, 0), r.origin);
    // the corner ray leans up and left: (0.66519, 0.33259, -0.66851)
    assert!((r.direction.x.raw - 6_651_900).abs() <= 2000, "x {}", r.direction.x.raw);
    assert!((r.direction.y.raw - 3_325_900).abs() <= 2000, "y {}", r.direction.y.raw);
    assert!((r.direction.z.raw + 6_685_100).abs() <= 2000, "z {}", r.direction.z.raw);
}

#[test]
fn view_transform_looking_down_negative_z() {
    let vt = view_transform(p(0, 0, 0), p(0, 0, -1), v(0, 1, 0));
    // left = normalize(up x forward) points along -x here, so the
    // orientation is a mirror of the identity in x
    assert_eq!(fxi(-1), vt.fwd.r0.x);
    assert_eq!(fxi(0), vt.fwd.r0.y);
    assert_eq!(fxi(1), vt.fwd.r1.y);
    assert_eq!(fxi(1), vt.fwd.r2.z);
    assert_eq!(fxi(1), vt.fwd.r3.w);
    assert_eq!(fxi(0), vt.fwd.r0.w);
    assert_eq!(fxi(0), vt.fwd.r1.w);
    assert_eq!(fxi(0), vt.fwd.r2.w);
}

#[test]
fn view_transform_translates_by_eye_position() {
    let vt = view_transform(p(0, 0, 8), p(0, 0, 0), v(0, 1, 0));
    // the forward matrix carries world points by -8 along z before
    // orienting; the camera-space origin maps back to the eye
    let eye = vt.inv.mul_tuple(p(0, 0, 0));
    assert_eq!(p(0, 0, 8), eye);
}

#[test]
fn render_shades_every_pixel_with_color_at() {
    let w = World::default();
    let mut c = Camera::new(3, 2, fxi(1));
    c.transform = view_transform(p(0, 0, -5), p(0, 0, 0), v(0, 1, 0));
    let img = c.render(&w);
    assert_eq!(6, img.len());
    let mut idx: usize = 0;
    while idx < 6 {
        let px = (idx % 3) as u32;
        let py = (idx / 3) as u32;
        let expected: Color = w.color_at(c.ray_for_pixel(px, py));
        assert_eq!(expected, img[idx]);
        idx += 1;
    }
}

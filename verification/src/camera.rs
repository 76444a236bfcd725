//! The camera: maps the pixel raster onto world-space rays and renders a
//! world by shading one ray per pixel. The field of view is carried as
//! `half_view`, the tangent of half the field-of-view angle, which fully
//! determines the raster geometry together with width and height.

use vstd::prelude::*;
use crate::color::Color;
use crate::fixed::Fx;
use crate::matrix::Mat4;
use crate::ray::Ray;
use crate::transform;
use crate::transform::{spec_translate_mat, Transform};
use crate::tuple::{point, spec_point, Tuple};
use crate::world::World;

verus! {

pub struct Camera {
    /// Raster width in pixels; positive.
    pub width: u32,
    /// Raster height in pixels; positive.
    pub height: u32,
    /// The tangent of half the vertical field of view.
    pub half_view: Fx,
    /// The camera-to-world transform.
    pub transform: Transform,
    /// Half the world-space width of the canvas, derived.
    pub half_width: Fx,
    /// Half the world-space height of the canvas, derived.
    pub half_height: Fx,
    /// World-space side length of one (square) pixel, derived.
    pub pixel_size: Fx,
}

/// The raster's aspect ratio, `width / height`.
pub open spec fn spec_aspect(width: u32, height: u32) -> Fx {
    Fx::spec_from_int(width as int).spec_div(Fx::spec_from_int(height as int))
}

/// The half-width of the canvas: the half-view for a landscape raster,
/// else scaled by the aspect, keeping the field of view correct for the
/// narrower dimension.
pub open spec fn spec_half_width(width: u32, height: u32, half_view: Fx) -> Fx {
    if spec_aspect(width, height).raw >= crate::fixed::SCALE {
        half_view
    } else {
        half_view.spec_mul(spec_aspect(width, height))
    }
}

pub open spec fn spec_half_height(width: u32, height: u32, half_view: Fx) -> Fx {
    if spec_aspect(width, height).raw >= crate::fixed::SCALE {
        half_view.spec_div(spec_aspect(width, height))
    } else {
        half_view
    }
}

pub open spec fn spec_pixel_size(width: u32, height: u32, half_view: Fx) -> Fx {
    let hw = spec_half_width(width, height, half_view);
    hw.spec_add(hw).spec_div(Fx::spec_from_int(width as int))
}

impl Camera {
    /// A camera with the identity transform and the derived raster
    /// geometry for the given size and half-view tangent.
    pub fn new(width: u32, height: u32, half_view: Fx) -> (r: Camera)
        requires
            width >= 1,
            height >= 1,
        ensures
            r.width == width,
            r.height == height,
            r.half_view == half_view,
            r.transform == Transform::spec_identity(),
            r.half_width == spec_half_width(width, height, half_view),
            r.half_height == spec_half_height(width, height, half_view),
            r.pixel_size == spec_pixel_size(width, height, half_view),
    {
        let aspect = Fx::from_int(width as i64).div(Fx::from_int(height as i64));
        let half_width: Fx;
        let half_height: Fx;
        if aspect.raw >= crate::fixed::SCALE {
            half_width = half_view;
            half_height = half_view.div(aspect);
        } else {
            half_width = half_view.mul(aspect);
            half_height = half_view;
        }
        let pixel_size = half_width.add(half_width).div(Fx::from_int(width as i64));
        Camera {
            width,
            height,
            half_view,
            transform: transform::identity(),
            half_width,
            half_height,
            pixel_size,
        }
    }

    /// The world-space ray through the center of pixel `(px, py)`: offsets
    /// from the canvas edge by pixel size, inverted y, carried through the
    /// inverse camera transform, direction normalized.
    pub open spec fn spec_ray_for_pixel(self, px: int, py: int) -> Ray {
        let half_px = Fx { raw: 5_000_000 };
        let xoff = Fx::spec_from_int(px).spec_add(half_px).spec_mul(self.pixel_size);
        let yoff = Fx::spec_from_int(py).spec_add(half_px).spec_mul(self.pixel_size);
        let wx = self.half_width.spec_sub(xoff);
        let wy = self.half_height.spec_sub(yoff);
        let pixel = self.transform.inv.spec_mul_tuple(
            spec_point(wx, wy, Fx::spec_from_int(-1)),
        );
        let origin = self.transform.inv.spec_mul_tuple(
            spec_point(Fx::spec_zero(), Fx::spec_zero(), Fx::spec_zero()),
        );
        Ray { origin, direction: pixel.spec_sub(origin).spec_normalize() }
    }

    pub fn ray_for_pixel(&self, px: u32, py: u32) -> (r: Ray)
        ensures
            r == self.spec_ray_for_pixel(px as int, py as int),
    {
        let half_px = Fx { raw: 5_000_000 };
        let xoff = Fx::from_int(px as i64).add(half_px).mul(self.pixel_size);
        let yoff = Fx::from_int(py as i64).add(half_px).mul(self.pixel_size);
        let wx = self.half_width.sub(xoff);
        let wy = self.half_height.sub(yoff);
        let pixel = self.transform.inv.mul_tuple(point(wx, wy, Fx::from_int(-1)));
        let origin = self.transform.inv.mul_tuple(point(Fx::zero(), Fx::zero(), Fx::zero()));
        Ray::new(origin, pixel.sub(origin).normalize())
    }

    /// The color of the pixel at row-major index `idx`.
    pub open spec fn spec_pixel_color(self, w: World, idx: int) -> Color {
        w.spec_color_at(self.spec_ray_for_pixel(idx % (self.width as int), idx / (self.width as int)))
    }

    /// Render the world: one `color_at` per pixel, row-major. Each pixel
    /// is a pure function of the camera and the world, so the rows carry
    /// no hidden state.
    pub fn render(&self, w: &World) -> (r: Vec<Color>)
        requires
            self.width >= 1,
            (self.width as int) * (self.height as int) <= usize::MAX as int,
        ensures
            r@.len() == (self.width as int) * (self.height as int),
            forall|idx: int| 0 <= idx < r@.len() ==> r@[idx] == self.spec_pixel_color(*w, idx),
    {
        let total: usize = (self.width as usize) * (self.height as usize);
        let mut r: Vec<Color> = Vec::new();
        let mut idx: usize = 0;
        while idx < total
            invariant
                total == (self.width as int) * (self.height as int),
                self.width >= 1,
                idx <= total,
                r@.len() == idx,
                forall|i: int| 0 <= i < idx ==> r@[i] == self.spec_pixel_color(*w, i),
            decreases total - idx,
        {
            proof {
                vstd::arithmetic::div_mod::lemma_multiply_divide_lt(
                    idx as int,
                    self.width as int,
                    self.height as int,
                );
            }
            let px: u32 = (idx % (self.width as usize)) as u32;
            let py: u32 = (idx / (self.width as usize)) as u32;
            proof {
                assert(idx % (self.width as usize) < self.width as usize);
                assert(px as int == idx as int % (self.width as int));
                assert(py as int == idx as int / (self.width as int));
            }
            let ray = self.ray_for_pixel(px, py);
            let c = w.color_at(ray);
            r.push(c);
            idx = idx + 1;
        }
        r
    }
}

/// The orientation matrix of a view: rows are the left, true-up and
/// negated forward basis vectors derived from the eye position, the
/// look-at target and the up hint.
pub open spec fn spec_view_orientation(from: Tuple, to: Tuple, up: Tuple) -> Mat4 {
    let forward = to.spec_sub(from).spec_normalize();
    let left = up.spec_cross(forward).spec_normalize();
    let true_up = forward.spec_cross(left);
    Mat4 {
        r0: Tuple { x: left.x, y: left.y, z: left.z, w: Fx::spec_zero() },
        r1: Tuple { x: true_up.x, y: true_up.y, z: true_up.z, w: Fx::spec_zero() },
        r2: Tuple {
            x: forward.x.spec_neg(),
            y: forward.y.spec_neg(),
            z: forward.z.spec_neg(),
            w: Fx::spec_zero(),
        },
        r3: Tuple { x: Fx::spec_zero(), y: Fx::spec_zero(), z: Fx::spec_zero(), w: Fx::spec_one() },
    }
}

/// The camera transform looking from `from` toward `to` with `up`
/// roughly upward: the orientation composed with a translation by
/// `-from`; its inverse is built from the transposed orientation, which
/// undoes the rotation for an orthonormal basis.
pub fn view_transform(from: Tuple, to: Tuple, up: Tuple) -> (r: Transform)
    ensures
        r.fwd == spec_view_orientation(from, to, up).spec_mul(
            spec_translate_mat(from.x.spec_neg(), from.y.spec_neg(), from.z.spec_neg()),
        ),
        r.inv == spec_translate_mat(from.x, from.y, from.z).spec_mul(
            spec_view_orientation(from, to, up).spec_transpose(),
        ),
{
    let forward = to.sub(from).normalize();
    let left = up.cross(forward).normalize();
    let true_up = forward.cross(left);
    let orientation = Mat4 {
        r0: Tuple { x: left.x, y: left.y, z: left.z, w: Fx::zero() },
        r1: Tuple { x: true_up.x, y: true_up.y, z: true_up.z, w: Fx::zero() },
        r2: Tuple { x: forward.x.neg(), y: forward.y.neg(), z: forward.z.neg(), w: Fx::zero() },
        r3: Tuple { x: Fx::zero(), y: Fx::zero(), z: Fx::zero(), w: Fx::one() },
    };
    let back = transform::translate(from.x.neg(), from.y.neg(), from.z.neg());
    let toward = transform::translate(from.x, from.y, from.z);
    Transform {
        fwd: orientation.mul(back.fwd),
        inv: toward.fwd.mul(orientation.transpose()),
    }
}

} // verus!

//! Affine transforms. A transform is always invertible here because it
//! carries its inverse with it: each constructor builds the forward matrix
//! together with the closed-form inverse, and composition composes both
//! sides, so inversion is a constant-time swap and never fails.

use vstd::prelude::*;
use crate::fixed::Fx;
use crate::matrix::Mat4;
use crate::tuple::Tuple;

verus! {

#[derive(Clone, Copy, Debug, PartialEq, Eq, Structural)]
pub struct Transform {
    /// The local-to-world matrix.
    pub fwd: Mat4,
    /// The world-to-local matrix, kept in step with `fwd` by construction.
    pub inv: Mat4,
}

pub open spec fn spec_translate_mat(x: Fx, y: Fx, z: Fx) -> Mat4 {
    Mat4 {
        r0: Tuple { x: Fx::spec_one(), y: Fx::spec_zero(), z: Fx::spec_zero(), w: x },
        r1: Tuple { x: Fx::spec_zero(), y: Fx::spec_one(), z: Fx::spec_zero(), w: y },
        r2: Tuple { x: Fx::spec_zero(), y: Fx::spec_zero(), z: Fx::spec_one(), w: z },
        r3: Tuple { x: Fx::spec_zero(), y: Fx::spec_zero(), z: Fx::spec_zero(), w: Fx::spec_one() },
    }
}

pub open spec fn spec_scale_mat(x: Fx, y: Fx, z: Fx) -> Mat4 {
    Mat4 {
        r0: Tuple { x: x, y: Fx::spec_zero(), z: Fx::spec_zero(), w: Fx::spec_zero() },
        r1: Tuple { x: Fx::spec_zero(), y: y, z: Fx::spec_zero(), w: Fx::spec_zero() },
        r2: Tuple { x: Fx::spec_zero(), y: Fx::spec_zero(), z: z, w: Fx::spec_zero() },
        r3: Tuple { x: Fx::spec_zero(), y: Fx::spec_zero(), z: Fx::spec_zero(), w: Fx::spec_one() },
    }
}

/// Rotation about the x axis, given the sine and cosine of the angle.
pub open spec fn spec_rotate_x_mat(s: Fx, c: Fx) -> Mat4 {
    Mat4 {
        r0: Tuple { x: Fx::spec_one(), y: Fx::spec_zero(), z: Fx::spec_zero(), w: Fx::spec_zero() },
        r1: Tuple { x: Fx::spec_zero(), y: c, z: s.spec_neg(), w: Fx::spec_zero() },
        r2: Tuple { x: Fx::spec_zero(), y: s, z: c, w: Fx::spec_zero() },
        r3: Tuple { x: Fx::spec_zero(), y: Fx::spec_zero(), z: Fx::spec_zero(), w: Fx::spec_one() },
    }
}

/// The identity transform.
pub fn identity() -> (r: Transform)
    ensures
        r.fwd == Mat4::spec_identity(),
        r.inv == Mat4::spec_identity(),
{
    Transform { fwd: Mat4::identity(), inv: Mat4::identity() }
}

/// Translation by `(x, y, z)`; the inverse translates back.
pub fn translate(x: Fx, y: Fx, z: Fx) -> (r: Transform)
    ensures
        r.fwd == spec_translate_mat(x, y, z),
        r.inv == spec_translate_mat(x.spec_neg(), y.spec_neg(), z.spec_neg()),
{
    let fwd = Mat4 {
        r0: Tuple { x: Fx::one(), y: Fx::zero(), z: Fx::zero(), w: x },
        r1: Tuple { x: Fx::zero(), y: Fx::one(), z: Fx::zero(), w: y },
        r2: Tuple { x: Fx::zero(), y: Fx::zero(), z: Fx::one(), w: z },
        r3: Tuple { x: Fx::zero(), y: Fx::zero(), z: Fx::zero(), w: Fx::one() },
    };
    let inv = Mat4 {
        r0: Tuple { x: Fx::one(), y: Fx::zero(), z: Fx::zero(), w: x.neg() },
        r1: Tuple { x: Fx::zero(), y: Fx::one(), z: Fx::zero(), w: y.neg() },
        r2: Tuple { x: Fx::zero(), y: Fx::zero(), z: Fx::one(), w: z.neg() },
        r3: Tuple { x: Fx::zero(), y: Fx::zero(), z: Fx::zero(), w: Fx::one() },
    };
    Transform { fwd, inv }
}

/// Scaling by `(x, y, z)`; the inverse scales by the nearest representable
/// reciprocals. Degenerate (zero) factors are a caller error: the
/// reciprocal of zero is stored as zero and the transform is singular.
pub fn scale(x: Fx, y: Fx, z: Fx) -> (r: Transform)
    ensures
        r.fwd == spec_scale_mat(x, y, z),
        r.inv == spec_scale_mat(
            Fx::spec_one().spec_div(x),
            Fx::spec_one().spec_div(y),
            Fx::spec_one().spec_div(z),
        ),
{
    let fwd = Mat4 {
        r0: Tuple { x: x, y: Fx::zero(), z: Fx::zero(), w: Fx::zero() },
        r1: Tuple { x: Fx::zero(), y: y, z: Fx::zero(), w: Fx::zero() },
        r2: Tuple { x: Fx::zero(), y: Fx::zero(), z: z, w: Fx::zero() },
        r3: Tuple { x: Fx::zero(), y: Fx::zero(), z: Fx::zero(), w: Fx::one() },
    };
    let inv = Mat4 {
        r0: Tuple { x: Fx::one().div(x), y: Fx::zero(), z: Fx::zero(), w: Fx::zero() },
        r1: Tuple { x: Fx::zero(), y: Fx::one().div(y), z: Fx::zero(), w: Fx::zero() },
        r2: Tuple { x: Fx::zero(), y: Fx::zero(), z: Fx::one().div(z), w: Fx::zero() },
        r3: Tuple { x: Fx::zero(), y: Fx::zero(), z: Fx::zero(), w: Fx::one() },
    };
    Transform { fwd, inv }
}

/// Rotation about the x axis, given the sine and cosine of the angle;
/// the inverse rotates by the negated angle.
pub fn rotate_x(s: Fx, c: Fx) -> (r: Transform)
    ensures
        r.fwd == spec_rotate_x_mat(s, c),
        r.inv == spec_rotate_x_mat(s.spec_neg(), c),
{
    let fwd = Mat4 {
        r0: Tuple { x: Fx::one(), y: Fx::zero(), z: Fx::zero(), w: Fx::zero() },
        r1: Tuple { x: Fx::zero(), y: c, z: s.neg(), w: Fx::zero() },
        r2: Tuple { x: Fx::zero(), y: s, z: c, w: Fx::zero() },
        r3: Tuple { x: Fx::zero(), y: Fx::zero(), z: Fx::zero(), w: Fx::one() },
    };
    let sn = s.neg();
    let inv = Mat4 {
        r0: Tuple { x: Fx::one(), y: Fx::zero(), z: Fx::zero(), w: Fx::zero() },
        r1: Tuple { x: Fx::zero(), y: c, z: sn.neg(), w: Fx::zero() },
        r2: Tuple { x: Fx::zero(), y: sn, z: c, w: Fx::zero() },
        r3: Tuple { x: Fx::zero(), y: Fx::zero(), z: Fx::zero(), w: Fx::one() },
    };
    Transform { fwd, inv }
}

impl Transform {
    pub open spec fn spec_identity() -> Transform {
        Transform { fwd: Mat4::spec_identity(), inv: Mat4::spec_identity() }
    }

    /// Composition: applying `o` first, then `self` (forward matrices in
    /// `self * o` order, inverses in the reverse order).
    pub open spec fn spec_mul(self, o: Transform) -> Transform {
        Transform { fwd: self.fwd.spec_mul(o.fwd), inv: o.inv.spec_mul(self.inv) }
    }

    pub open spec fn spec_inverse(self) -> Transform {
        Transform { fwd: self.inv, inv: self.fwd }
    }

    pub fn mul(self, o: Transform) -> (r: Transform)
        ensures
            r == self.spec_mul(o),
    {
        Transform { fwd: self.fwd.mul(o.fwd), inv: o.inv.mul(self.inv) }
    }

    pub fn inverse(self) -> (r: Transform)
        ensures
            r == self.spec_inverse(),
    {
        Transform { fwd: self.inv, inv: self.fwd }
    }
}

} // verus!

//! Points and vectors in homogeneous coordinates: a point has `w == 1`, a
//! vector `w == 0`. All arithmetic is pure and has an exact spec twin.

use vstd::prelude::*;
use crate::fixed::Fx;

verus! {

#[derive(Clone, Copy, Debug, PartialEq, Eq, Structural)]
pub struct Tuple {
    pub x: Fx,
    pub y: Fx,
    pub z: Fx,
    pub w: Fx,
}

/// A point: `w == 1`.
pub fn point(x: Fx, y: Fx, z: Fx) -> (r: Tuple)
    ensures
        r == spec_point(x, y, z),
{
    Tuple { x, y, z, w: Fx::one() }
}

/// A vector: `w == 0`.
pub fn vector(x: Fx, y: Fx, z: Fx) -> (r: Tuple)
    ensures
        r == spec_vector(x, y, z),
{
    Tuple { x, y, z, w: Fx::zero() }
}

pub open spec fn spec_point(x: Fx, y: Fx, z: Fx) -> Tuple {
    Tuple { x, y, z, w: Fx::spec_one() }
}

pub open spec fn spec_vector(x: Fx, y: Fx, z: Fx) -> Tuple {
    Tuple { x, y, z, w: Fx::spec_zero() }
}

impl Tuple {
    pub open spec fn spec_add(self, o: Tuple) -> Tuple {
        Tuple {
            x: self.x.spec_add(o.x),
            y: self.y.spec_add(o.y),
            z: self.z.spec_add(o.z),
            w: self.w.spec_add(o.w),
        }
    }

    pub open spec fn spec_sub(self, o: Tuple) -> Tuple {
        Tuple {
            x: self.x.spec_sub(o.x),
            y: self.y.spec_sub(o.y),
            z: self.z.spec_sub(o.z),
            w: self.w.spec_sub(o.w),
        }
    }

    pub open spec fn spec_neg(self) -> Tuple {
        Tuple { x: self.x.spec_neg(), y: self.y.spec_neg(), z: self.z.spec_neg(), w: self.w.spec_neg() }
    }

    /// Component-wise scaling by a scalar.
    pub open spec fn spec_scale(self, s: Fx) -> Tuple {
        Tuple { x: self.x.spec_mul(s), y: self.y.spec_mul(s), z: self.z.spec_mul(s), w: self.w.spec_mul(s) }
    }

    /// Four-component dot product, summed left to right.
    pub open spec fn spec_dot(self, o: Tuple) -> Fx {
        self.x.spec_mul(o.x).spec_add(self.y.spec_mul(o.y)).spec_add(
            self.z.spec_mul(o.z),
        ).spec_add(self.w.spec_mul(o.w))
    }

    pub open spec fn spec_cross(self, o: Tuple) -> Tuple {
        spec_vector(
            self.y.spec_mul(o.z).spec_sub(self.z.spec_mul(o.y)),
            self.z.spec_mul(o.x).spec_sub(self.x.spec_mul(o.z)),
            self.x.spec_mul(o.y).spec_sub(self.y.spec_mul(o.x)),
        )
    }

    pub open spec fn spec_magnitude(self) -> Fx {
        self.spec_dot(self).spec_sqrt()
    }

    /// Each component divided by the magnitude; a zero vector stays zero.
    pub open spec fn spec_normalize(self) -> Tuple {
        let m = self.spec_magnitude();
        Tuple { x: self.x.spec_div(m), y: self.y.spec_div(m), z: self.z.spec_div(m), w: self.w.spec_div(m) }
    }

    /// Reflection of `self` about the normal `n`.
    pub open spec fn spec_reflect(self, n: Tuple) -> Tuple {
        let d = self.spec_dot(n);
        self.spec_sub(n.spec_scale(d.spec_add(d)))
    }

    /// The same tuple with `w` forced to zero.
    pub open spec fn spec_with_w0(self) -> Tuple {
        Tuple { x: self.x, y: self.y, z: self.z, w: Fx::spec_zero() }
    }

    pub fn add(self, o: Tuple) -> (r: Tuple)
        ensures
            r == self.spec_add(o),
    {
        Tuple { x: self.x.add(o.x), y: self.y.add(o.y), z: self.z.add(o.z), w: self.w.add(o.w) }
    }

    pub fn sub(self, o: Tuple) -> (r: Tuple)
        ensures
            r == self.spec_sub(o),
    {
        Tuple { x: self.x.sub(o.x), y: self.y.sub(o.y), z: self.z.sub(o.z), w: self.w.sub(o.w) }
    }

    pub fn neg(self) -> (r: Tuple)
        ensures
            r == self.spec_neg(),
    {
        Tuple { x: self.x.neg(), y: self.y.neg(), z: self.z.neg(), w: self.w.neg() }
    }

    pub fn scale(self, s: Fx) -> (r: Tuple)
        ensures
            r == self.spec_scale(s),
    {
        Tuple { x: self.x.mul(s), y: self.y.mul(s), z: self.z.mul(s), w: self.w.mul(s) }
    }

    pub fn dot(self, o: Tuple) -> (r: Fx)
        ensures
            r == self.spec_dot(o),
    {
        self.x.mul(o.x).add(self.y.mul(o.y)).add(self.z.mul(o.z)).add(self.w.mul(o.w))
    }

    pub fn cross(self, o: Tuple) -> (r: Tuple)
        ensures
            r == self.spec_cross(o),
    {
        vector(
            self.y.mul(o.z).sub(self.z.mul(o.y)),
            self.z.mul(o.x).sub(self.x.mul(o.z)),
            self.x.mul(o.y).sub(self.y.mul(o.x)),
        )
    }

    pub fn magnitude(self) -> (r: Fx)
        ensures
            r == self.spec_magnitude(),
    {
        self.dot(self).sqrt()
    }

    pub fn normalize(self) -> (r: Tuple)
        ensures
            r == self.spec_normalize(),
    {
        let m = self.magnitude();
        Tuple { x: self.x.div(m), y: self.y.div(m), z: self.z.div(m), w: self.w.div(m) }
    }

    pub fn reflect(self, n: Tuple) -> (r: Tuple)
        ensures
            r == self.spec_reflect(n),
    {
        let d = self.dot(n);
        self.sub(n.scale(d.add(d)))
    }

    pub fn with_w0(self) -> (r: Tuple)
        ensures
            r == self.spec_with_w0(),
    {
        Tuple { x: self.x, y: self.y, z: self.z, w: Fx::zero() }
    }
}

} // verus!

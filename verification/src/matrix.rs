//! 4x4 matrices, stored as four row tuples. Multiplication is the exact
//! fixed-point recomputation of each entry as a row-column dot product.

use vstd::prelude::*;
use crate::fixed::Fx;
use crate::tuple::Tuple;

verus! {

#[derive(Clone, Copy, Debug, PartialEq, Eq, Structural)]
pub struct Mat4 {
    pub r0: Tuple,
    pub r1: Tuple,
    pub r2: Tuple,
    pub r3: Tuple,
}

impl Mat4 {
    pub open spec fn spec_identity() -> Mat4 {
        Mat4 {
            r0: Tuple { x: Fx::spec_one(), y: Fx::spec_zero(), z: Fx::spec_zero(), w: Fx::spec_zero() },
            r1: Tuple { x: Fx::spec_zero(), y: Fx::spec_one(), z: Fx::spec_zero(), w: Fx::spec_zero() },
            r2: Tuple { x: Fx::spec_zero(), y: Fx::spec_zero(), z: Fx::spec_one(), w: Fx::spec_zero() },
            r3: Tuple { x: Fx::spec_zero(), y: Fx::spec_zero(), z: Fx::spec_zero(), w: Fx::spec_one() },
        }
    }

    pub open spec fn spec_transpose(self) -> Mat4 {
        Mat4 {
            r0: Tuple { x: self.r0.x, y: self.r1.x, z: self.r2.x, w: self.r3.x },
            r1: Tuple { x: self.r0.y, y: self.r1.y, z: self.r2.y, w: self.r3.y },
            r2: Tuple { x: self.r0.z, y: self.r1.z, z: self.r2.z, w: self.r3.z },
            r3: Tuple { x: self.r0.w, y: self.r1.w, z: self.r2.w, w: self.r3.w },
        }
    }

    /// Matrix-tuple product: each result component is a row dotted with `t`.
    pub open spec fn spec_mul_tuple(self, t: Tuple) -> Tuple {
        Tuple {
            x: self.r0.spec_dot(t),
            y: self.r1.spec_dot(t),
            z: self.r2.spec_dot(t),
            w: self.r3.spec_dot(t),
        }
    }

    /// Matrix product: each row of the result is that row of `self`
    /// dotted with the columns of `o`.
    pub open spec fn spec_mul(self, o: Mat4) -> Mat4 {
        let c = o.spec_transpose();
        Mat4 {
            r0: Tuple { x: self.r0.spec_dot(c.r0), y: self.r0.spec_dot(c.r1), z: self.r0.spec_dot(c.r2), w: self.r0.spec_dot(c.r3) },
            r1: Tuple { x: self.r1.spec_dot(c.r0), y: self.r1.spec_dot(c.r1), z: self.r1.spec_dot(c.r2), w: self.r1.spec_dot(c.r3) },
            r2: Tuple { x: self.r2.spec_dot(c.r0), y: self.r2.spec_dot(c.r1), z: self.r2.spec_dot(c.r2), w: self.r2.spec_dot(c.r3) },
            r3: Tuple { x: self.r3.spec_dot(c.r0), y: self.r3.spec_dot(c.r1), z: self.r3.spec_dot(c.r2), w: self.r3.spec_dot(c.r3) },
        }
    }

    pub fn identity() -> (r: Mat4)
        ensures
            r == Mat4::spec_identity(),
    {
        Mat4 {
            r0: Tuple { x: Fx::one(), y: Fx::zero(), z: Fx::zero(), w: Fx::zero() },
            r1: Tuple { x: Fx::zero(), y: Fx::one(), z: Fx::zero(), w: Fx::zero() },
            r2: Tuple { x: Fx::zero(), y: Fx::zero(), z: Fx::one(), w: Fx::zero() },
            r3: Tuple { x: Fx::zero(), y: Fx::zero(), z: Fx::zero(), w: Fx::one() },
        }
    }

    pub fn transpose(self) -> (r: Mat4)
        ensures
            r == self.spec_transpose(),
    {
        Mat4 {
            r0: Tuple { x: self.r0.x, y: self.r1.x, z: self.r2.x, w: self.r3.x },
            r1: Tuple { x: self.r0.y, y: self.r1.y, z: self.r2.y, w: self.r3.y },
            r2: Tuple { x: self.r0.z, y: self.r1.z, z: self.r2.z, w: self.r3.z },
            r3: Tuple { x: self.r0.w, y: self.r1.w, z: self.r2.w, w: self.r3.w },
        }
    }

    pub fn mul_tuple(self, t: Tuple) -> (r: Tuple)
        ensures
            r == self.spec_mul_tuple(t),
    {
        Tuple { x: self.r0.dot(t), y: self.r1.dot(t), z: self.r2.dot(t), w: self.r3.dot(t) }
    }

    pub fn mul(self, o: Mat4) -> (r: Mat4)
        ensures
            r == self.spec_mul(o),
    {
        let c = o.transpose();
        Mat4 {
            r0: Tuple { x: self.r0.dot(c.r0), y: self.r0.dot(c.r1), z: self.r0.dot(c.r2), w: self.r0.dot(c.r3) },
            r1: Tuple { x: self.r1.dot(c.r0), y: self.r1.dot(c.r1), z: self.r1.dot(c.r2), w: self.r1.dot(c.r3) },
            r2: Tuple { x: self.r2.dot(c.r0), y: self.r2.dot(c.r1), z: self.r2.dot(c.r2), w: self.r2.dot(c.r3) },
            r3: Tuple { x: self.r3.dot(c.r0), y: self.r3.dot(c.r1), z: self.r3.dot(c.r2), w: self.r3.dot(c.r3) },
        }
    }
}

} // verus!

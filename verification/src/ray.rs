//! A ray: an origin point and a direction vector. The direction is not
//! required to be normalized by callers, though the camera produces
//! normalized directions.

use vstd::prelude::*;
use crate::fixed::Fx;
use crate::matrix::Mat4;
use crate::tuple::Tuple;

verus! {

#[derive(Clone, Copy, Debug, PartialEq, Eq, Structural)]
pub struct Ray {
    pub origin: Tuple,
    pub direction: Tuple,
}

impl Ray {
    pub open spec fn spec_new(origin: Tuple, direction: Tuple) -> Ray {
        Ray { origin, direction }
    }

    /// The point reached at parameter `t`: `origin + direction * t`.
    pub open spec fn spec_position(self, t: Fx) -> Tuple {
        self.origin.spec_add(self.direction.spec_scale(t))
    }

    /// The ray carried through a matrix: both origin and direction are
    /// multiplied by it.
    pub open spec fn spec_transform(self, m: Mat4) -> Ray {
        Ray { origin: m.spec_mul_tuple(self.origin), direction: m.spec_mul_tuple(self.direction) }
    }

    pub fn new(origin: Tuple, direction: Tuple) -> (r: Ray)
        ensures
            r == Ray::spec_new(origin, direction),
    {
        Ray { origin, direction }
    }

    pub fn position(self, t: Fx) -> (r: Tuple)
        ensures
            r == self.spec_position(t),
    {
        self.origin.add(self.direction.scale(t))
    }

    pub fn transform(self, m: &Mat4) -> (r: Ray)
        ensures
            r == self.spec_transform(*m),
    {
        Ray { origin: m.mul_tuple(self.origin), direction: m.mul_tuple(self.direction) }
    }
}

} // verus!

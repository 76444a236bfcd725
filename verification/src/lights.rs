//! A point light: an intensity color at a position. A world owns exactly
//! one light.

use vstd::prelude::*;
use crate::color::Color;
use crate::tuple::Tuple;

verus! {

#[derive(Clone, Copy, Debug, PartialEq, Eq, Structural)]
pub struct PointLight {
    pub intensity: Color,
    pub position: Tuple,
}

impl PointLight {
    pub open spec fn spec_new(intensity: Color, position: Tuple) -> PointLight {
        PointLight { intensity, position }
    }

    pub fn new(intensity: Color, position: Tuple) -> (r: PointLight)
        ensures
            r == PointLight::spec_new(intensity, position),
    {
        PointLight { intensity, position }
    }
}

} // verus!

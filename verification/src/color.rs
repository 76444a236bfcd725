//! Colors as red/green/blue components; sums and products are
//! component-wise and are never clamped here (clamping is an
//! encoding-time concern, outside the core).

use vstd::prelude::*;
use crate::fixed::Fx;

verus! {

#[derive(Clone, Copy, Debug, PartialEq, Eq, Structural)]
pub struct Color {
    pub red: Fx,
    pub green: Fx,
    pub blue: Fx,
}

impl Color {
    pub open spec fn spec_new(red: Fx, green: Fx, blue: Fx) -> Color {
        Color { red, green, blue }
    }

    pub open spec fn spec_black() -> Color {
        Color { red: Fx::spec_zero(), green: Fx::spec_zero(), blue: Fx::spec_zero() }
    }

    pub open spec fn spec_white() -> Color {
        Color { red: Fx::spec_one(), green: Fx::spec_one(), blue: Fx::spec_one() }
    }

    pub open spec fn spec_add(self, o: Color) -> Color {
        Color {
            red: self.red.spec_add(o.red),
            green: self.green.spec_add(o.green),
            blue: self.blue.spec_add(o.blue),
        }
    }

    /// The component-wise (Hadamard) product.
    pub open spec fn spec_mul(self, o: Color) -> Color {
        Color {
            red: self.red.spec_mul(o.red),
            green: self.green.spec_mul(o.green),
            blue: self.blue.spec_mul(o.blue),
        }
    }

    pub open spec fn spec_scale(self, s: Fx) -> Color {
        Color { red: self.red.spec_mul(s), green: self.green.spec_mul(s), blue: self.blue.spec_mul(s) }
    }

    pub fn new(red: Fx, green: Fx, blue: Fx) -> (r: Color)
        ensures
            r == Color::spec_new(red, green, blue),
    {
        Color { red, green, blue }
    }

    pub fn black() -> (r: Color)
        ensures
            r == Color::spec_black(),
    {
        Color { red: Fx::zero(), green: Fx::zero(), blue: Fx::zero() }
    }

    pub fn white() -> (r: Color)
        ensures
            r == Color::spec_white(),
    {
        Color { red: Fx::one(), green: Fx::one(), blue: Fx::one() }
    }

    pub fn add(self, o: Color) -> (r: Color)
        ensures
            r == self.spec_add(o),
    {
        Color { red: self.red.add(o.red), green: self.green.add(o.green), blue: self.blue.add(o.blue) }
    }

    pub fn mul(self, o: Color) -> (r: Color)
        ensures
            r == self.spec_mul(o),
    {
        Color { red: self.red.mul(o.red), green: self.green.mul(o.green), blue: self.blue.mul(o.blue) }
    }

    pub fn scale(self, s: Fx) -> (r: Color)
        ensures
            r == self.spec_scale(s),
    {
        Color { red: self.red.mul(s), green: self.green.mul(s), blue: self.blue.mul(s) }
    }
}

} // verus!

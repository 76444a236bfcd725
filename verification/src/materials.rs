//! Surface materials and Phong shading: ambient + diffuse + specular
//! contributions from a single point light. When the point is in shadow
//! only the ambient term survives.

use vstd::prelude::*;
use crate::color::Color;
use crate::fixed::Fx;
use crate::lights::PointLight;
use crate::tuple::Tuple;

verus! {

#[derive(Clone, Copy, Debug, PartialEq, Eq, Structural)]
pub struct Material {
    pub color: Color,
    pub ambient: Fx,
    pub diffuse: Fx,
    pub specular: Fx,
    /// The specular falloff exponent; higher is sharper.
    pub shininess: u32,
}

impl Material {
    /// The default material: white, ambient 0.1, diffuse 0.9, specular
    /// 0.9, shininess 200.
    pub open spec fn spec_default() -> Material {
        Material {
            color: Color::spec_white(),
            ambient: Fx { raw: 1_000_000 },
            diffuse: Fx { raw: 9_000_000 },
            specular: Fx { raw: 9_000_000 },
            shininess: 200,
        }
    }

    pub fn new() -> (r: Material)
        ensures
            r == Material::spec_default(),
    {
        Material {
            color: Color::white(),
            ambient: Fx { raw: 1_000_000 },
            diffuse: Fx { raw: 9_000_000 },
            specular: Fx { raw: 9_000_000 },
            shininess: 200,
        }
    }

    /// The Phong shading equation at a surface point.
    pub open spec fn spec_lighting(
        self,
        light: PointLight,
        point: Tuple,
        eyev: Tuple,
        normalv: Tuple,
        in_shadow: bool,
    ) -> Color {
        let effective = self.color.spec_mul(light.intensity);
        let ambient = effective.spec_scale(self.ambient);
        if in_shadow {
            ambient
        } else {
            let lightv = light.position.spec_sub(point).spec_normalize();
            let light_dot_normal = lightv.spec_dot(normalv);
            if light_dot_normal.raw < 0 {
                ambient
            } else {
                let diffuse = effective.spec_scale(self.diffuse).spec_scale(light_dot_normal);
                let reflectv = lightv.spec_neg().spec_reflect(normalv);
                let reflect_dot_eye = reflectv.spec_dot(eyev);
                if reflect_dot_eye.raw <= 0 {
                    ambient.spec_add(diffuse)
                } else {
                    let factor = reflect_dot_eye.spec_pow(self.shininess as nat);
                    let specular = light.intensity.spec_scale(self.specular).spec_scale(factor);
                    ambient.spec_add(diffuse).spec_add(specular)
                }
            }
        }
    }

    /// Evaluate the Phong model: ambient plus, when the point is lit,
    /// diffuse and specular terms. Contributions are summed without
    /// clamping.
    pub fn lighting(
        &self,
        light: PointLight,
        point: Tuple,
        eyev: Tuple,
        normalv: Tuple,
        in_shadow: bool,
    ) -> (r: Color)
        ensures
            r == self.spec_lighting(light, point, eyev, normalv, in_shadow),
    {
        let effective = self.color.mul(light.intensity);
        let ambient = effective.scale(self.ambient);
        if in_shadow {
            return ambient;
        }
        let lightv = light.position.sub(point).normalize();
        let light_dot_normal = lightv.dot(normalv);
        if light_dot_normal.raw < 0 {
            return ambient;
        }
        let diffuse = effective.scale(self.diffuse).scale(light_dot_normal);
        let reflectv = lightv.neg().reflect(normalv);
        let reflect_dot_eye = reflectv.dot(eyev);
        if reflect_dot_eye.raw <= 0 {
            return ambient.add(diffuse);
        }
        let factor = reflect_dot_eye.pow(self.shininess);
        let specular = light.intensity.scale(self.specular).scale(factor);
        ambient.add(diffuse).add(specular)
    }
}

} // verus!

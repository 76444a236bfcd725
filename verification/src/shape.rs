//! Geometric primitives. Each variant is defined in a canonical local
//! object space (unit sphere at the origin; the xz-plane), carries a
//! local-to-world transform and a material, and answers two questions:
//! where a world-space ray crosses its surface, and what the outward unit
//! normal is at a world-space surface point.

use vstd::prelude::*;
use crate::fixed::{iabs, Fx};
use crate::materials::Material;
use crate::ray::Ray;
use crate::transform;
use crate::transform::Transform;
use crate::tuple::{point, spec_point, spec_vector, vector, Tuple};

verus! {

/// A ray whose direction y-component is smaller in magnitude than this is
/// treated as parallel to the xz-plane.
pub const PLANE_PARALLEL_EPS_RAW: i64 = 100;

#[derive(Clone, Copy, Debug, PartialEq, Eq, Structural)]
pub enum ShapeType {
    Sphere,
    Plane,
}

#[derive(Clone, Copy, Debug, PartialEq, Eq, Structural)]
pub struct Shape {
    pub kind: ShapeType,
    pub transform: Transform,
    pub material: Material,
}

impl Shape {
    pub fn new(kind: ShapeType) -> (r: Shape)
        ensures
            r.kind == kind,
            r.transform == Transform::spec_identity(),
            r.material == Material::spec_default(),
    {
        Shape { kind, transform: transform::identity(), material: Material::new() }
    }

    /// The incoming world ray carried into this shape's object space.
    pub open spec fn spec_local_ray(self, ray: Ray) -> Ray {
        ray.spec_transform(self.transform.inv)
    }

    /// The `a` coefficient of the sphere quadratic: `|direction|^2`.
    pub open spec fn spec_sphere_a(self, ray: Ray) -> Fx {
        let lr = self.spec_local_ray(ray);
        lr.direction.spec_dot(lr.direction)
    }

    /// Half the `b` coefficient of the sphere quadratic.
    pub open spec fn spec_sphere_bh(self, ray: Ray) -> Fx {
        let lr = self.spec_local_ray(ray);
        let oc = lr.origin.spec_sub(spec_point(Fx::spec_zero(), Fx::spec_zero(), Fx::spec_zero()));
        oc.spec_dot(lr.direction)
    }

    /// The `c` coefficient of the sphere quadratic: `|origin|^2 - 1`.
    pub open spec fn spec_sphere_c(self, ray: Ray) -> Fx {
        let lr = self.spec_local_ray(ray);
        let oc = lr.origin.spec_sub(spec_point(Fx::spec_zero(), Fx::spec_zero(), Fx::spec_zero()));
        oc.spec_dot(oc).spec_sub(Fx::spec_one())
    }

    /// A quarter of the discriminant: `(b/2)^2 - a*c`.
    pub open spec fn spec_sphere_disc(self, ray: Ray) -> Fx {
        let a = self.spec_sphere_a(ray);
        let bh = self.spec_sphere_bh(ray);
        let c = self.spec_sphere_c(ray);
        bh.spec_mul(bh).spec_sub(a.spec_mul(c))
    }

    /// The parameter of the ray's closest approach to the sphere's center:
    /// `-(b/2) / a`.
    pub open spec fn spec_sphere_tm(self, ray: Ray) -> Fx {
        self.spec_sphere_bh(ray).spec_neg().spec_div(self.spec_sphere_a(ray))
    }

    /// The parameter offset of the two roots from the closest approach:
    /// `sqrt(disc/4) / a`.
    pub open spec fn spec_sphere_dt(self, ray: Ray) -> Fx {
        self.spec_sphere_disc(ray).spec_sqrt().spec_div(self.spec_sphere_a(ray))
    }

    /// The intersection parameters of the local ray with the unit sphere:
    /// none when the discriminant is negative or the direction is
    /// degenerate, else the two roots `tm -+ dt`.
    pub open spec fn spec_sphere_ts(self, ray: Ray) -> Seq<Fx> {
        let a = self.spec_sphere_a(ray);
        let disc = self.spec_sphere_disc(ray);
        if a.raw <= 0 || disc.raw < 0 {
            Seq::empty()
        } else {
            let tm = self.spec_sphere_tm(ray);
            let dt = self.spec_sphere_dt(ray);
            seq![tm.spec_sub(dt), tm.spec_add(dt)]
        }
    }

    /// The intersection parameters of the local ray with the xz-plane:
    /// none when the ray is (near) parallel, else `-origin.y/direction.y`.
    pub open spec fn spec_plane_ts(self, ray: Ray) -> Seq<Fx> {
        let lr = self.spec_local_ray(ray);
        if iabs(lr.direction.y.raw as int) < PLANE_PARALLEL_EPS_RAW {
            Seq::empty()
        } else {
            seq![lr.origin.y.spec_neg().spec_div(lr.direction.y)]
        }
    }

    /// The parameters at which the world ray crosses this shape's surface,
    /// in no guaranteed order.
    pub open spec fn spec_intersect(self, ray: Ray) -> Seq<Fx> {
        match self.kind {
            ShapeType::Sphere => self.spec_sphere_ts(ray),
            ShapeType::Plane => self.spec_plane_ts(ray),
        }
    }

    /// The world normal: the local normal carried through the transpose of
    /// the inverse transform, with `w` forced to zero, normalized.
    pub open spec fn spec_normal(self, world_point: Tuple) -> Tuple {
        let local_point = self.transform.inv.spec_mul_tuple(world_point);
        let local_normal = match self.kind {
            ShapeType::Sphere => local_point.spec_sub(
                spec_point(Fx::spec_zero(), Fx::spec_zero(), Fx::spec_zero()),
            ),
            ShapeType::Plane => spec_vector(Fx::spec_zero(), Fx::spec_one(), Fx::spec_zero()),
        };
        self.transform.inv.spec_transpose().spec_mul_tuple(local_normal).spec_with_w0().spec_normalize()
    }

    /// Intersect a world-space ray with this shape.
    #[verifier::rlimit(60)]
    pub fn intersect(&self, ray: Ray) -> (r: Vec<Fx>)
        ensures
            r@ == self.spec_intersect(ray),
    {
        let lr = ray.transform(&self.transform.inv);
        let mut ts: Vec<Fx> = Vec::new();
        match self.kind {
            ShapeType::Sphere => {
                let oc = lr.origin.sub(point(Fx::zero(), Fx::zero(), Fx::zero()));
                let a = lr.direction.dot(lr.direction);
                let bh = oc.dot(lr.direction);
                let c = oc.dot(oc).sub(Fx::one());
                let disc = bh.mul(bh).sub(a.mul(c));
                proof {
                    assert(lr == self.spec_local_ray(ray));
                    assert(a == self.spec_sphere_a(ray));
                    assert(bh == self.spec_sphere_bh(ray));
                    assert(c == self.spec_sphere_c(ray));
                    assert(disc == self.spec_sphere_disc(ray));
                }
                if a.raw > 0 && disc.raw >= 0 {
                    let tm = bh.neg().div(a);
                    let dt = disc.sqrt().div(a);
                    ts.push(tm.sub(dt));
                    ts.push(tm.add(dt));
                    proof {
                        assert(ts@ =~= self.spec_sphere_ts(ray));
                    }
                } else {
                    proof {
                        assert(ts@ =~= self.spec_sphere_ts(ray));
                    }
                }
            },
            ShapeType::Plane => {
                let dy = lr.direction.y;
                let mag = if dy.raw < 0 {
                    -dy.raw
                } else {
                    dy.raw
                };
                if mag >= PLANE_PARALLEL_EPS_RAW {
                    ts.push(lr.origin.y.neg().div(dy));
                    proof {
                        assert(ts@ =~= self.spec_plane_ts(ray));
                    }
                } else {
                    proof {
                        assert(ts@ =~= self.spec_plane_ts(ray));
                    }
                }
            },
        }
        ts
    }

    /// The outward unit normal at a world-space surface point.
    pub fn normal(&self, world_point: Tuple) -> (r: Tuple)
        ensures
            r == self.spec_normal(world_point),
    {
        let local_point = self.transform.inv.mul_tuple(world_point);
        let local_normal = match self.kind {
            ShapeType::Sphere => local_point.sub(point(Fx::zero(), Fx::zero(), Fx::zero())),
            ShapeType::Plane => vector(Fx::zero(), Fx::one(), Fx::zero()),
        };
        self.transform.inv.transpose().mul_tuple(local_normal).with_w0().normalize()
    }
}

/// When a ray actually crosses a sphere (positive direction norm and
/// non-negative discriminant, as computed), it does so at exactly two
/// parameters, placed symmetrically about the closest-approach parameter;
/// when no saturation occurs their sum is exactly twice that parameter.
pub proof fn lemma_sphere_hits_symmetric(s: Shape, ray: Ray)
    requires
        s.kind == ShapeType::Sphere,
        s.spec_sphere_a(ray).raw > 0,
        s.spec_sphere_disc(ray).raw >= 0,
    ensures
        s.spec_intersect(ray).len() == 2,
        s.spec_intersect(ray)[0] == s.spec_sphere_tm(ray).spec_sub(s.spec_sphere_dt(ray)),
        s.spec_intersect(ray)[1] == s.spec_sphere_tm(ray).spec_add(s.spec_sphere_dt(ray)),
        s.spec_sphere_dt(ray).raw >= 0,
        iabs(s.spec_sphere_tm(ray).raw as int) + s.spec_sphere_dt(ray).raw <= i64::MAX ==> (
        s.spec_intersect(ray)[0].raw + s.spec_intersect(ray)[1].raw == 2 * s.spec_sphere_tm(
            ray,
        ).raw),
{
    let disc = s.spec_sphere_disc(ray);
    let a = s.spec_sphere_a(ray);
    crate::fixed::lemma_sqrt_bounds(disc);
    crate::fixed::lemma_ratio_nonneg(disc.spec_sqrt().raw as int, a.raw as int);
}

/// A ray whose direction is (near) parallel to the xz-plane misses a
/// plane; any other ray crosses it exactly once, at `-origin.y /
/// direction.y` of the local ray.
pub proof fn lemma_plane_intersections(s: Shape, ray: Ray)
    requires
        s.kind == ShapeType::Plane,
    ensures
        iabs(s.spec_local_ray(ray).direction.y.raw as int) < PLANE_PARALLEL_EPS_RAW
            ==> s.spec_intersect(ray).len() == 0,
        iabs(s.spec_local_ray(ray).direction.y.raw as int) >= PLANE_PARALLEL_EPS_RAW ==> (
        s.spec_intersect(ray).len() == 1 && s.spec_intersect(ray)[0] == s.spec_local_ray(
            ray,
        ).origin.y.spec_neg().spec_div(s.spec_local_ray(ray).direction.y)),
{
}

} // verus!

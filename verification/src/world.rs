//! The scene: one point light and an ordered list of shapes. Offers
//! scene-level intersection (all crossings, sorted by `t`), shadow
//! testing, and full shading of a ray into a color.

use vstd::prelude::*;
use crate::color::Color;
use crate::fixed::Fx;
use crate::intersections::{beats, hit, is_hit_of, lemma_hit_multiset, sort_by_t, sorted_by_t, spec_hit, Intersection};
use crate::lights::PointLight;
use crate::materials::Material;
use crate::ray::Ray;
use crate::shape::{Shape, ShapeType};
use crate::transform;
use crate::transform::{spec_scale_mat, Transform};
use crate::tuple::{point, spec_point, Tuple};

verus! {

/// How far a hit point is nudged along the surface normal before shadow
/// tests, to avoid self-intersection from rounding at the true surface.
pub const OVER_POINT_EPS_RAW: i64 = 100;

pub struct World {
    pub light: PointLight,
    pub shapes: Vec<Shape>,
}

/// Everything `shade_hit` needs about one chosen intersection.
pub struct Comps {
    pub t: Fx,
    /// The index of the shape hit.
    pub shape: usize,
    /// The world point struck by the ray.
    pub point: Tuple,
    /// The point nudged along `normalv`, used for shadow tests and as
    /// the shading point, so the shadow ray starts clear of the surface
    /// on the eye's side.
    pub over_point: Tuple,
    pub eyev: Tuple,
    /// The surface normal, flipped toward the eye when the ray strikes
    /// from inside.
    pub normalv: Tuple,
    pub inside: bool,
}

/// The light every fresh world starts with: white, at `(-10, 10, -10)`.
pub open spec fn spec_default_light() -> PointLight {
    PointLight {
        intensity: Color::spec_white(),
        position: spec_point(
            Fx::spec_from_int(-10),
            Fx::spec_from_int(10),
            Fx::spec_from_int(-10),
        ),
    }
}

/// The outer sphere of the default scene: colored, diffuse 0.7,
/// specular 0.2.
pub open spec fn spec_default_s1() -> Shape {
    Shape {
        kind: ShapeType::Sphere,
        transform: Transform::spec_identity(),
        material: Material {
            color: Color {
                red: Fx { raw: 8_000_000 },
                green: Fx { raw: 10_000_000 },
                blue: Fx { raw: 6_000_000 },
            },
            ambient: Fx { raw: 1_000_000 },
            diffuse: Fx { raw: 7_000_000 },
            specular: Fx { raw: 2_000_000 },
            shininess: 200,
        },
    }
}

/// The inner sphere of the default scene: default material, scaled by
/// one half.
pub open spec fn spec_default_s2() -> Shape {
    let h = Fx { raw: 5_000_000 };
    let sc = Transform {
        fwd: spec_scale_mat(h, h, h),
        inv: spec_scale_mat(
            Fx::spec_one().spec_div(h),
            Fx::spec_one().spec_div(h),
            Fx::spec_one().spec_div(h),
        ),
    };
    Shape {
        kind: ShapeType::Sphere,
        transform: Transform::spec_identity().spec_mul(sc),
        material: Material::spec_default(),
    }
}

impl World {
    /// An empty world with the default light.
    pub fn new() -> (r: World)
        ensures
            r.light == spec_default_light(),
            r.shapes@ == Seq::<Shape>::empty(),
    {
        World {
            light: PointLight::new(
                Color::white(),
                point(Fx::from_int(-10), Fx::from_int(10), Fx::from_int(-10)),
            ),
            shapes: Vec::new(),
        }
    }

    /// All intersections of `ray` with the shapes at indices below `n`,
    /// in shape order.
    pub open spec fn spec_xs_upto(self, ray: Ray, n: int) -> Seq<Intersection>
        decreases n,
    {
        if n <= 0 {
            Seq::empty()
        } else {
            self.spec_xs_upto(ray, n - 1) + self.shapes@[n - 1].spec_intersect(ray).map(
                |j: int, t: Fx| Intersection { t, shape: (n - 1) as usize },
            )
        }
    }

    /// All intersections of `ray` with the scene, in shape order.
    pub open spec fn spec_xs(self, ray: Ray) -> Seq<Intersection> {
        self.spec_xs_upto(ray, self.shapes@.len() as int)
    }

    /// Every recorded intersection points at a shape below `n`.
    pub proof fn lemma_xs_shapes(self, ray: Ray, n: int)
        requires
            0 <= n <= self.shapes@.len(),
        ensures
            forall|j: int|
                0 <= j < self.spec_xs_upto(ray, n).len() ==> self.spec_xs_upto(ray, n)[j].shape
                    < n,
        decreases n,
    {
        if n > 0 {
            self.lemma_xs_shapes(ray, n - 1);
            let prev = self.spec_xs_upto(ray, n - 1);
            let whole = self.spec_xs_upto(ray, n);
            assert forall|j: int| 0 <= j < whole.len() implies whole[j].shape < n by {
                if j < prev.len() {
                    assert(whole[j] == prev[j]);
                } else {
                    assert(whole[j].shape == (n - 1) as usize);
                }
            }
        }
    }

    /// Collect every intersection of `ray` with every shape and sort them
    /// by ascending `t`. The result holds exactly the scene's
    /// intersections, each tagged with its shape's index.
    pub fn intersect(&self, ray: Ray) -> (r: Vec<Intersection>)
        ensures
            r@.to_multiset() == self.spec_xs(ray).to_multiset(),
            r@.len() == self.spec_xs(ray).len(),
            sorted_by_t(r@),
            forall|j: int| 0 <= j < r@.len() ==> r@[j].shape < self.shapes@.len(),
    {
        broadcast use vstd::seq_lib::group_to_multiset_ensures;

        let mut xs: Vec<Intersection> = Vec::new();
        let mut s: usize = 0;
        while s < self.shapes.len()
            invariant
                s <= self.shapes.len(),
                xs@ == self.spec_xs_upto(ray, s as int),
            decreases self.shapes.len() - s,
        {
            let ts = self.shapes[s].intersect(ray);
            let ghost base = xs@;
            let mut k: usize = 0;
            while k < ts.len()
                invariant
                    k <= ts.len(),
                    ts@ == self.shapes@[s as int].spec_intersect(ray),
                    xs@ == base + ts@.subrange(0, k as int).map(
                        |j: int, t: Fx| Intersection { t, shape: s },
                    ),
                decreases ts.len() - k,
            {
                xs.push(Intersection { t: ts[k], shape: s });
                proof {
                    assert(ts@.subrange(0, k + 1 as int).map(
                        |j: int, t: Fx| Intersection { t, shape: s },
                    ) =~= ts@.subrange(0, k as int).map(
                        |j: int, t: Fx| Intersection { t, shape: s },
                    ).push(Intersection { t: ts@[k as int], shape: s }));
                }
                k = k + 1;
            }
            proof {
                assert(ts@.subrange(0, ts@.len() as int) =~= ts@);
                assert(xs@ == self.spec_xs_upto(ray, s + 1 as int));
            }
            s = s + 1;
        }
        let r = sort_by_t(xs);
        proof {
            self.lemma_xs_shapes(ray, self.shapes@.len() as int);
            assert forall|j: int| 0 <= j < r@.len() implies r@[j].shape < self.shapes@.len() by {
                assert(r@.contains(r@[j]));
                assert(r@.to_multiset().count(r@[j]) > 0);
                assert(self.spec_xs(ray).contains(r@[j]));
                let q = choose|q: int|
                    0 <= q < self.spec_xs(ray).len() && self.spec_xs(ray)[q] == r@[j];
                assert(self.spec_xs(ray)[q].shape < self.shapes@.len());
            }
        }
        r
    }

    /// The data `shade_hit` needs about the chosen intersection: the
    /// struck point, the eye vector, the surface normal (flipped, with
    /// `inside` set, when the ray starts inside the shape), and
    /// `over_point`, the point nudged along that flipped normal for
    /// shadow tests.
    pub open spec fn spec_prepare(self, i: Intersection, ray: Ray) -> Comps {
        let shape = self.shapes@[i.shape as int];
        let p = ray.spec_position(i.t);
        let eyev = ray.direction.spec_neg();
        let normal0 = shape.spec_normal(p);
        let inside = normal0.spec_dot(eyev).raw < 0;
        let normalv = if inside {
            normal0.spec_neg()
        } else {
            normal0
        };
        let over_point = p.spec_add(normalv.spec_scale(Fx { raw: OVER_POINT_EPS_RAW }));
        Comps { t: i.t, shape: i.shape, point: p, over_point, eyev, normalv, inside }
    }

    pub fn prepare_computations(&self, i: Intersection, ray: Ray) -> (r: Comps)
        requires
            i.shape < self.shapes@.len(),
        ensures
            r == self.spec_prepare(i, ray),
    {
        let shape = &self.shapes[i.shape];
        let p = ray.position(i.t);
        let eyev = ray.direction.neg();
        let normal0 = shape.normal(p);
        let inside = normal0.dot(eyev).raw < 0;
        let normalv = if inside {
            normal0.neg()
        } else {
            normal0
        };
        let over_point = p.add(normalv.scale(Fx { raw: OVER_POINT_EPS_RAW }));
        Comps { t: i.t, shape: i.shape, point: p, over_point, eyev, normalv, inside }
    }

    /// The direction from a point toward the light, normalized.
    pub open spec fn spec_shadow_ray(self, p: Tuple) -> Ray {
        Ray { origin: p, direction: self.light.position.spec_sub(p).spec_normalize() }
    }

    /// The distance from a point to the light.
    pub open spec fn spec_shadow_distance(self, p: Tuple) -> Fx {
        self.light.position.spec_sub(p).spec_magnitude()
    }

    /// A point is in shadow exactly when the ray from it toward the light
    /// crosses some shape at a parameter that is non-negative and
    /// strictly smaller than the distance to the light.
    pub open spec fn spec_is_shadowed(self, p: Tuple) -> bool {
        exists|j: int|
            0 <= j < self.spec_xs(self.spec_shadow_ray(p)).len() && 0 <= (#[trigger] self.spec_xs(
                self.spec_shadow_ray(p),
            )[j]).t.raw < self.spec_shadow_distance(p).raw
    }

    /// Cast a ray from `p` toward the light: `p` is shadowed exactly when
    /// the nearest visible crossing lies strictly closer than the light.
    pub fn is_shadowed(&self, p: Tuple) -> (r: bool)
        ensures
            r == self.spec_is_shadowed(p),
    {
        broadcast use vstd::seq_lib::group_to_multiset_ensures;

        let direction = self.light.position.sub(p);
        let distance = direction.magnitude();
        let sray = Ray::new(p, direction.normalize());
        let ghost sxs = self.spec_xs(sray);
        let xs = self.intersect(sray);
        let ghost g = xs@;
        let h = hit(xs);
        proof {
            lemma_hit_multiset(g, sxs);
        }
        match h {
            Option::Some(i) => {
                proof {
                    assert(sray == self.spec_shadow_ray(p));
                    assert(distance == self.spec_shadow_distance(p));
                    assert(is_hit_of(sxs, i));
                    if i.t.raw < distance.raw {
                        let j = choose|j: int| 0 <= j < sxs.len() && sxs[j] == i;
                        assert(0 <= j < self.spec_xs(self.spec_shadow_ray(p)).len() && 0 <= (
                        self.spec_xs(self.spec_shadow_ray(p))[j]).t.raw < self.spec_shadow_distance(
                            p,
                        ).raw);
                    } else {
                        assert forall|j: int|
                            0 <= j < sxs.len() implies !(0 <= (#[trigger] sxs[j]).t.raw
                            < distance.raw) by {
                            if 0 <= sxs[j].t.raw {
                                assert(sxs.contains(sxs[j]));
                                assert(beats(i, sxs[j]));
                            }
                        }
                    }
                }
                i.t.raw < distance.raw
            },
            Option::None => {
                proof {
                    assert(sray == self.spec_shadow_ray(p));
                    assert(distance == self.spec_shadow_distance(p));
                    assert forall|j: int|
                        0 <= j < sxs.len() implies !(0 <= (#[trigger] sxs[j]).t.raw
                        < distance.raw) by {
                        assert(sxs.contains(sxs[j]));
                        assert(sxs.to_multiset().count(sxs[j]) > 0);
                        assert(g.contains(sxs[j]));
                        let q = choose|q: int| 0 <= q < g.len() && g[q] == sxs[j];
                        assert(g[q].t.raw < 0);
                    }
                }
                false
            },
        }
    }

    /// Phong-shade the prepared hit: the shape's material, lit by the
    /// world's light at `over_point`, with shadowing from
    /// [`World::is_shadowed`].
    pub open spec fn spec_shade_hit(self, c: Comps) -> Color {
        self.shapes@[c.shape as int].material.spec_lighting(
            self.light,
            c.over_point,
            c.eyev,
            c.normalv,
            self.spec_is_shadowed(c.over_point),
        )
    }

    pub fn shade_hit(&self, comps: Comps) -> (r: Color)
        requires
            comps.shape < self.shapes@.len(),
        ensures
            r == self.spec_shade_hit(comps),
    {
        let shadowed = self.is_shadowed(comps.over_point);
        self.shapes[comps.shape].material.lighting(
            self.light,
            comps.over_point,
            comps.eyev,
            comps.normalv,
            shadowed,
        )
    }

    /// The color a ray sees: black when it hits nothing, else the shaded
    /// color of the nearest visible crossing. A pure function of the
    /// world and the ray.
    pub open spec fn spec_color_at(self, ray: Ray) -> Color {
        match spec_hit(self.spec_xs(ray)) {
            Option::None => Color::spec_black(),
            Option::Some(h) => self.spec_shade_hit(self.spec_prepare(h, ray)),
        }
    }

    pub fn color_at(&self, ray: Ray) -> (r: Color)
        ensures
            r == self.spec_color_at(ray),
    {
        broadcast use vstd::seq_lib::group_to_multiset_ensures;

        let ghost sxs = self.spec_xs(ray);
        let xs = self.intersect(ray);
        let ghost g = xs@;
        let h = hit(xs);
        proof {
            lemma_hit_multiset(g, sxs);
        }
        match h {
            Option::Some(i) => {
                proof {
                    assert(is_hit_of(sxs, i));
                    let j = choose|j: int| 0 <= j < sxs.len() && sxs[j] == i;
                    self.lemma_xs_shapes(ray, self.shapes@.len() as int);
                    assert(i.shape < self.shapes@.len());
                }
                let comps = self.prepare_computations(i, ray);
                self.shade_hit(comps)
            },
            Option::None => Color::black(),
        }
    }
}

impl Default for World {
    /// The default scene: the default light and two concentric spheres,
    /// the outer one colored, the inner one half-size.
    #[verifier::rlimit(100)]
    fn default() -> (r: World)
        ensures
            r.light == spec_default_light(),
            r.shapes@ == seq![spec_default_s1(), spec_default_s2()],
    {
        let mut w = World::new();
        let mut s1 = Shape::new(ShapeType::Sphere);
        s1.material.color = Color::new(
            Fx::from_ratio(8, 10),
            Fx::from_int(1),
            Fx::from_ratio(6, 10),
        );
        s1.material.diffuse = Fx::from_ratio(7, 10);
        s1.material.specular = Fx::from_ratio(2, 10);

        let mut s2 = Shape::new(ShapeType::Sphere);
        let half = Fx::from_ratio(1, 2);
        s2.transform = s2.transform.mul(transform::scale(half, half, half));

        w.shapes.push(s1);
        w.shapes.push(s2);
        proof {
            assert(s1 == spec_default_s1());
            assert((1int * 10_000_000 + 2int / 2) / 2 == 5_000_000int);
            assert(half == (Fx { raw: 5_000_000 }));
            assert(s2.transform.fwd == spec_default_s2().transform.fwd);
            assert(s2.transform.inv == spec_default_s2().transform.inv);
            assert(s2 == spec_default_s2());
            assert(w.shapes@ =~= seq![spec_default_s1(), spec_default_s2()]);
        }
        w
    }
}

/// If some crossing of the shadow ray lies strictly between the point
/// and the light, the point is in shadow.
pub proof fn lemma_blocker_shadows(w: World, p: Tuple, j: int)
    requires
        0 <= j < w.spec_xs(w.spec_shadow_ray(p)).len(),
        0 < w.spec_xs(w.spec_shadow_ray(p))[j].t.raw < w.spec_shadow_distance(p).raw,
    ensures
        w.spec_is_shadowed(p),
{
}

/// If no crossing of the shadow ray lies at a non-negative parameter
/// short of the light, the point is not in shadow.
pub proof fn lemma_no_blocker_no_shadow(w: World, p: Tuple)
    requires
        forall|j: int|
            0 <= j < w.spec_xs(w.spec_shadow_ray(p)).len() ==> !(0 <= (#[trigger] w.spec_xs(
                w.spec_shadow_ray(p),
            )[j]).t.raw < w.spec_shadow_distance(p).raw),
    ensures
        !w.spec_is_shadowed(p),
{
}

} // verus!

//! Materials: how a surface scatters an incoming ray at a hit point.
//!
//! The three kinds — diffuse, metallic and refractive — form a closed
//! sum type. A scatter call either produces an outgoing ray with an
//! attenuation color, or absorbs the ray (`None`).

use vstd::prelude::*;

use crate::fixed::Fx;
use crate::fixed::SCALE;
use crate::fixed::add_raw;
use crate::fixed::sub_raw;
use crate::fixed::div_raw;
use crate::fixed::mul_raw;
use crate::ray::Ray;
use crate::ray::RayV;
use crate::rng::RandomSource;
use crate::vec3::V3;
use crate::vec3::Vec3;
use crate::vec3::refract_disc;
use crate::vec3::refract_dir;
use crate::vec3::v_add;
use crate::vec3::v_sub;
use crate::vec3::v_neg;
use crate::vec3::v_dot;
use crate::vec3::v_len;
use crate::vec3::v_len_sq;
use crate::vec3::v_norm;
use crate::vec3::v_reflect;
use crate::vec3::v_scale;

verus! {

/// The outcome of a scatter: the outgoing ray and the color attenuation.
#[derive(Clone, Copy, PartialEq, Eq, Structural, Debug)]
pub struct ScatterResult {
    pub scattered: Ray,
    pub attenuation: Vec3,
}

impl ScatterResult {
    /// Both parts lie in the saturation range.
    pub open spec fn ok(self) -> bool {
        self.scattered.ok() && self.attenuation.ok()
    }
}

/// A diffuse surface with the given albedo.
#[derive(Clone, Copy, PartialEq, Eq, Structural, Debug)]
pub struct Lambertian {
    pub albedo: Vec3,
}

/// A specular surface with the given albedo and fuzz in `[0, 1]`.
#[derive(Clone, Copy, PartialEq, Eq, Structural, Debug)]
pub struct Metal {
    pub albedo: Vec3,
    pub fuzz: Fx,
}

/// A refractive surface with the given refractive index.
#[derive(Clone, Copy, PartialEq, Eq, Structural, Debug)]
pub struct Dielectric {
    pub refractive_index: Fx,
}

/// The closed set of materials a surface can carry.
#[derive(Clone, Copy, PartialEq, Eq, Structural, Debug)]
pub enum Material {
    Lambertian(Lambertian),
    Metal(Metal),
    Dielectric(Dielectric),
}

/// A vector drawn by the rejection sampler: squared length below 1,
/// each component in `[-1, 1)`.
pub open spec fn in_unit_sphere(s: V3) -> bool {
    &&& v_len_sq(s) < SCALE as int
    &&& -(SCALE as int) <= s.x < SCALE as int
    &&& -(SCALE as int) <= s.y < SCALE as int
    &&& -(SCALE as int) <= s.z < SCALE as int
}

/// A uniformly random point strictly inside the unit sphere, by
/// rejection sampling of the cube `[-1, 1)^3`. The number of attempts
/// is capped; if every draw were rejected (probability vanishingly
/// small) the center of the sphere is returned.
pub fn random_in_unit_sphere(rng: &mut RandomSource) -> (v: Vec3)
    ensures
        in_unit_sphere(v@),
        v.ok(),
{
    let one = Fx::one();
    let mut attempts: usize = 0;
    while attempts < 10000
        invariant
            one@ == SCALE as int,
        decreases 10000 - attempts,
    {
        let x = rng.next_symmetric();
        let y = rng.next_symmetric();
        let z = rng.next_symmetric();
        let v = Vec3::new(x, y, z);
        if v.length_squared().lt(one) {
            return v;
        }
        attempts += 1;
    }
    Vec3::zero()
}

/// The diffuse scatter direction: `(p + normal + sample) - p`.
pub open spec fn lambertian_dir(p: V3, normal: V3, smp: V3) -> V3 {
    v_sub(v_add(v_add(p, normal), smp), p)
}

impl Lambertian {
    /// Diffuse scatter: aim at a random point in the unit sphere around
    /// the normal's tip; never absorbs.
    pub fn scatter(&self, _ray_in: &Ray, p: Vec3, normal: Vec3, rng: &mut RandomSource)
        -> (res: Option<ScatterResult>)
        requires
            self.albedo.ok(),
            p.ok(),
            normal.ok(),
        ensures
            res is Some,
            res matches Some(s) ==> {
                &&& s.attenuation@ == self.albedo@
                &&& s.scattered.origin@ == p@
                &&& s.ok()
                &&& exists|smp: V3|
                    in_unit_sphere(smp)
                        && s.scattered.direction@ == lambertian_dir(p@, normal@, smp)
            },
    {
        let smp = random_in_unit_sphere(rng);
        let target = p.add(normal).add(smp);
        let res = ScatterResult {
            scattered: Ray { origin: p, direction: target.sub(p) },
            attenuation: self.albedo,
        };
        proof {
            assert(in_unit_sphere(smp@)
                && res.scattered.direction@ == lambertian_dir(p@, normal@, smp@));
        }
        Some(res)
    }
}

/// The metallic scatter direction for a given fuzz sample:
/// `reflect(unit(direction), normal) + fuzz * sample`.
pub open spec fn metal_scattered(ray: RayV, normal: V3, fuzz: int, smp: V3) -> V3 {
    v_add(v_reflect(v_norm(ray.direction), normal), v_scale(fuzz, smp))
}

impl Metal {
    /// Specular scatter: reflect the normalized incoming direction and
    /// perturb it by `fuzz` times a random point in the unit sphere;
    /// absorbs when the perturbed direction falls below the surface.
    pub fn scatter(&self, ray_in: &Ray, p: Vec3, normal: Vec3, rng: &mut RandomSource)
        -> (res: Option<ScatterResult>)
        requires
            self.albedo.ok(),
            self.fuzz.ok(),
            ray_in.ok(),
            p.ok(),
            normal.ok(),
        ensures
            res matches Some(s) ==> {
                &&& s.attenuation@ == self.albedo@
                &&& s.scattered.origin@ == p@
                &&& s.ok()
                &&& v_dot(s.scattered.direction@, normal@) > 0
                &&& exists|smp: V3|
                    in_unit_sphere(smp)
                        && s.scattered.direction@
                            == metal_scattered(ray_in@, normal@, self.fuzz@, smp)
            },
            res is None ==> exists|smp: V3|
                in_unit_sphere(smp)
                    && v_dot(metal_scattered(ray_in@, normal@, self.fuzz@, smp), normal@)
                        <= 0,
            self.fuzz@ == 0 ==> (res is Some <==> v_dot(
                v_reflect(v_norm(ray_in@.direction), normal@),
                normal@,
            ) > 0),
            self.fuzz@ == 0 ==> (res matches Some(s) ==> s.scattered.direction@
                == v_reflect(v_norm(ray_in@.direction), normal@)),
    {
        let smp = random_in_unit_sphere(rng);
        let reflected = ray_in.direction.normalize().reflect(normal);
        let scattered = reflected.add(smp.scale(self.fuzz));
        proof {
            assert(scattered@ == metal_scattered(ray_in@, normal@, self.fuzz@, smp@));
            if self.fuzz@ == 0 {
                assert(mul_raw(0, smp@.x) == 0 && mul_raw(0, smp@.y) == 0
                    && mul_raw(0, smp@.z) == 0);
                assert(scattered@ == reflected@);
            }
        }
        if scattered.dot(normal).is_pos() {
            Some(ScatterResult {
                scattered: Ray { origin: p, direction: scattered },
                attenuation: self.albedo,
            })
        } else {
            None
        }
    }
}

/// Fifth power, with fixed-point rounding after every multiplication.
pub open spec fn pow5_raw(x: int) -> int {
    mul_raw(mul_raw(mul_raw(mul_raw(x, x), x), x), x)
}

/// The Schlick reflectance approximation
/// `r0 + (1 - r0) (1 - cosine)^5` with `r0 = ((1 - n) / (1 + n))^2`.
pub open spec fn schlick_raw(cosine: int, refractive_index: int) -> int {
    let q = div_raw(sub_raw(SCALE as int, refractive_index),
        add_raw(SCALE as int, refractive_index));
    let r0 = mul_raw(q, q);
    add_raw(r0, mul_raw(sub_raw(SCALE as int, r0), pow5_raw(sub_raw(SCALE as int, cosine))))
}

/// The Schlick reflectance approximation.
pub fn schlick(cosine: Fx, refractive_index: Fx) -> (r: Fx)
    requires
        cosine.ok(),
        refractive_index.ok(),
    ensures
        r@ == schlick_raw(cosine@, refractive_index@),
        r.ok(),
{
    let one = Fx::one();
    let q = one.sub(refractive_index).div(one.add(refractive_index));
    let r0 = q.mul(q);
    let b = one.sub(cosine);
    let b5 = b.mul(b).mul(b).mul(b).mul(b);
    r0.add(one.sub(r0).mul(b5))
}

/// The outward-facing normal for the refraction geometry: flipped when
/// the ray leaves the medium.
pub open spec fn diel_outward(ray: RayV, normal: V3) -> V3 {
    if v_dot(ray.direction, normal) > 0 {
        v_neg(normal)
    } else {
        normal
    }
}

/// The refractive-index ratio for the refraction geometry.
pub open spec fn diel_ni(refractive_index: int, ray: RayV, normal: V3) -> int {
    if v_dot(ray.direction, normal) > 0 {
        refractive_index
    } else {
        div_raw(SCALE as int, refractive_index)
    }
}

/// The cosine term fed to the Schlick approximation.
pub open spec fn diel_cosine(refractive_index: int, ray: RayV, normal: V3) -> int {
    if v_dot(ray.direction, normal) > 0 {
        div_raw(mul_raw(refractive_index, v_dot(ray.direction, normal)),
            v_len(ray.direction))
    } else {
        div_raw(sub_raw(0, v_dot(ray.direction, normal)), v_len(ray.direction))
    }
}

/// Whether a random draw in `[0, 1)` chooses refraction over
/// reflection: it must reach at least the Schlick reflectance.
pub open spec fn diel_refracts(draw: int, cosine: int, refractive_index: int) -> bool {
    draw >= schlick_raw(cosine, refractive_index)
}

impl Dielectric {
    /// Refractive scatter: refract through the surface when geometry
    /// allows and a random draw favors transmission, otherwise reflect;
    /// never absorbs, and never attenuates (the attenuation is white).
    pub fn scatter(&self, ray_in: &Ray, p: Vec3, normal: Vec3, rng: &mut RandomSource)
        -> (res: Option<ScatterResult>)
        requires
            self.refractive_index.ok(),
            ray_in.ok(),
            p.ok(),
            normal.ok(),
        ensures
            res is Some,
            res matches Some(s) ==> {
                &&& s.attenuation@ == (V3 {
                    x: SCALE as int,
                    y: SCALE as int,
                    z: SCALE as int,
                })
                &&& s.scattered.origin@ == p@
                &&& s.ok()
            },
            res matches Some(s) ==> {
                let ow = diel_outward(ray_in@, normal@);
                let ni = diel_ni(self.refractive_index@, ray_in@, normal@);
                if refract_disc(ray_in@.direction, ow, ni) >= 0 {
                    exists|draw: int|
                        0 <= draw < SCALE as int && s.scattered.direction@ == (
                        if #[trigger] diel_refracts(
                            draw,
                            diel_cosine(self.refractive_index@, ray_in@, normal@),
                            self.refractive_index@,
                        ) {
                            refract_dir(ray_in@.direction, ow, ni)
                        } else {
                            v_reflect(ray_in@.direction, normal@)
                        })
                } else {
                    s.scattered.direction@ == v_reflect(ray_in@.direction, normal@)
                }
            },
    {
        let one = Fx::one();
        let d_dot_n = ray_in.direction.dot(normal);
        let len = ray_in.direction.length();
        let (outward_normal, ni_over_nt, cosine) = if d_dot_n.is_pos() {
            (
                normal.neg(),
                self.refractive_index,
                self.refractive_index.mul(d_dot_n).div(len),
            )
        } else {
            (normal, one.div(self.refractive_index), Fx::zero().sub(d_dot_n).div(len))
        };
        let white = Vec3::one();
        if let Some(refracted) = ray_in.direction.refract(outward_normal, ni_over_nt) {
            let reflect_prob = schlick(cosine, self.refractive_index);
            let draw = rng.next_unit();
            if !draw.lt(reflect_prob) {
                let res = ScatterResult {
                    scattered: Ray { origin: p, direction: refracted },
                    attenuation: white,
                };
                proof {
                    assert(diel_refracts(
                        draw@,
                        diel_cosine(self.refractive_index@, ray_in@, normal@),
                        self.refractive_index@,
                    ));
                    assert(0 <= draw@ < SCALE as int && res.scattered.direction@
                        == refract_dir(
                            ray_in@.direction,
                            diel_outward(ray_in@, normal@),
                            diel_ni(self.refractive_index@, ray_in@, normal@),
                        ));
                }
                return Some(res);
            }
            let res = ScatterResult {
                scattered: Ray { origin: p, direction: ray_in.direction.reflect(normal) },
                attenuation: white,
            };
            proof {
                assert(!diel_refracts(
                    draw@,
                    diel_cosine(self.refractive_index@, ray_in@, normal@),
                    self.refractive_index@,
                ));
                assert(0 <= draw@ < SCALE as int && res.scattered.direction@
                    == v_reflect(ray_in@.direction, normal@));
            }
            return Some(res);
        }
        Some(ScatterResult {
            scattered: Ray { origin: p, direction: ray_in.direction.reflect(normal) },
            attenuation: white,
        })
    }
}

impl Material {
    /// All carried values lie in the saturation range.
    pub open spec fn ok(self) -> bool {
        match self {
            Material::Lambertian(l) => l.albedo.ok(),
            Material::Metal(m) => m.albedo.ok() && m.fuzz.ok(),
            Material::Dielectric(d) => d.refractive_index.ok(),
        }
    }

    /// Scatter an incoming ray at the hit point `p` with the surface
    /// normal `normal`; `None` means the ray is absorbed.
    pub fn scatter(&self, ray_in: &Ray, p: Vec3, normal: Vec3, rng: &mut RandomSource)
        -> (res: Option<ScatterResult>)
        requires
            self.ok(),
            ray_in.ok(),
            p.ok(),
            normal.ok(),
        ensures
            res matches Some(s) ==> s.ok() && s.scattered.origin@ == p@,
            self is Dielectric || self is Lambertian ==> res is Some,
            self matches Material::Lambertian(l) ==> (res matches Some(s)
                ==> s.attenuation@ == l.albedo@),
            self matches Material::Metal(m) ==> (res matches Some(s)
                ==> s.attenuation@ == m.albedo@),
            self is Dielectric ==> (res matches Some(s) ==> s.attenuation@ == (V3 {
                x: SCALE as int,
                y: SCALE as int,
                z: SCALE as int,
            })),
    {
        match self {
            Material::Lambertian(l) => l.scatter(ray_in, p, normal, rng),
            Material::Metal(m) => m.scatter(ray_in, p, normal, rng),
            Material::Dielectric(d) => d.scatter(ray_in, p, normal, rng),
        }
    }
}

} // verus!

//! The path integrator: follows a ray through the scene, bounce by
//! bounce, multiplying attenuations, until the ray escapes to the
//! background, is absorbed, or the depth limit cuts the path off.

use vstd::prelude::*;

use crate::fixed::Fx;
use crate::fixed::MAX_RAW;
use crate::fixed::SCALE;
use crate::fixed::mul_raw;
use crate::fixed::add_raw;
use crate::fixed::sat;
use crate::fixed::sqrt_raw;
use crate::fixed::tdiv;
use crate::hit::HitList;
use crate::material::Material;
use crate::hit::scene_hit_spec;
use crate::ray::Ray;
use crate::ray::RayV;
use crate::rng::RandomSource;
use crate::vec3::V3;
use crate::vec3::Vec3;
use crate::vec3::lerp;
use crate::vec3::v_cmul;
use crate::vec3::v_lerp;
use crate::vec3::v_norm;

verus! {

/// Recursion depth at which a path is cut off and returns black.
pub const DEPTH_LIMIT: i32 = 50;

/// Raw value of the shadow-acne epsilon, the lower bound of every
/// intersection interval (about 0.001).
pub const EPS_RAW: i64 = 66;

/// White, the color with every channel 1.
pub open spec fn white_v() -> V3 {
    V3 { x: SCALE as int, y: SCALE as int, z: SCALE as int }
}

/// The sky color at the top of the background gradient, about
/// `(0.5, 0.7, 1.0)`.
pub open spec fn sky_v() -> V3 {
    V3 { x: 32768, y: 45875, z: SCALE as int }
}

/// Black, the zero color.
pub open spec fn black_v() -> V3 {
    V3 { x: 0, y: 0, z: 0 }
}

/// The background gradient: blend white toward the sky color by
/// `0.5 * (y + 1)`, where `y` is taken from the normalized direction.
pub open spec fn background_of(r: RayV) -> V3 {
    v_lerp(white_v(), sky_v(), mul_raw(32768, add_raw(v_norm(r.direction).y, SCALE as int)))
}

/// Multiplying a color by white leaves it unchanged.
pub proof fn lemma_white_cmul(b: V3)
    requires
        -(MAX_RAW as int) <= b.x <= MAX_RAW as int,
        -(MAX_RAW as int) <= b.y <= MAX_RAW as int,
        -(MAX_RAW as int) <= b.z <= MAX_RAW as int,
    ensures
        v_cmul(white_v(), b) == b,
{
    lemma_one_mul(b.x);
    lemma_one_mul(b.y);
    lemma_one_mul(b.z);
}

/// Multiplying by the scalar 1 leaves an in-range raw value unchanged.
pub proof fn lemma_one_mul(b: int)
    requires
        -(MAX_RAW as int) <= b <= MAX_RAW as int,
    ensures
        mul_raw(SCALE as int, b) == b,
{
    if b >= 0 {
        vstd::arithmetic::div_mod::lemma_div_multiples_vanish(b, SCALE as int);
        assert(tdiv((SCALE as int) * b, SCALE as int) == b);
    } else {
        vstd::arithmetic::div_mod::lemma_div_multiples_vanish(-b, SCALE as int);
        assert(tdiv((SCALE as int) * b, SCALE as int) == b);
    }
    assert(sat(b) == b);
}

/// The background color of a ray that escapes the scene.
pub fn background(ray: &Ray) -> (c: Vec3)
    requires
        ray.ok(),
    ensures
        c@ == background_of(ray@),
        c.ok(),
{
    let unit = ray.direction.normalize();
    let half = Fx::from_raw(32768);
    let t = half.mul(unit.y.add(Fx::one()));
    let white = Vec3::one();
    let sky = Vec3::new(Fx::from_raw(32768), Fx::from_raw(45875), Fx::one());
    lerp(white, sky, t)
}

/// The color seen along a ray: the closest hit's material scatters the
/// ray and attenuates the color of the continuation; a miss ends the
/// path at the background gradient; absorption or reaching the depth
/// limit ends it at black.
pub fn color(ray: Ray, world: &HitList, depth: i32, rng: &mut RandomSource) -> (c: Vec3)
    requires
        world.ok(),
        ray.ok(),
    ensures
        c.ok(),
        scene_hit_spec(world@, ray@, EPS_RAW as int, MAX_RAW as int) is None
            ==> c@ == background_of(ray@),
        scene_hit_spec(world@, ray@, EPS_RAW as int, MAX_RAW as int) is Some
            && depth >= DEPTH_LIMIT as int ==> c@ == black_v(),
{
    let eps = Fx::from_raw(EPS_RAW);
    let tbig = Fx { raw: MAX_RAW };
    let mut cur = ray;
    let mut acc = Vec3::one();
    let mut d = depth;
    let mut first: bool = true;
    loop
        invariant
            world.ok(),
            cur.ok(),
            acc.ok(),
            eps@ == EPS_RAW as int,
            tbig@ == MAX_RAW as int,
            tbig.ok(),
            first ==> cur == ray && acc@ == white_v() && d == depth,
            !first ==> scene_hit_spec(world@, ray@, EPS_RAW as int, MAX_RAW as int) is Some
                && depth < DEPTH_LIMIT as int,
        decreases DEPTH_LIMIT - d,
    {
        match world.hit(&cur, eps, tbig) {
            Some(pair) => {
                if d >= DEPTH_LIMIT {
                    return Vec3::zero();
                }
                let rec = pair.0;
                let idx = pair.1;
                let m = material_at(world, idx);
                match m.scatter(&cur, rec.p, rec.normal, rng) {
                    Some(sr) => {
                        acc = acc.cmul(sr.attenuation);
                        cur = sr.scattered;
                        d = d + 1;
                        first = false;
                    }
                    None => {
                        return Vec3::zero();
                    }
                }
            }
            None => {
                let bg = background(&cur);
                if first {
                    proof {
                        lemma_white_cmul(bg@);
                    }
                }
                return acc.cmul(bg);
            }
        }
    }
}

/// The material of the scene's sphere at the given index.
fn material_at(world: &HitList, idx: usize) -> (m: Material)
    requires
        world.ok(),
        idx < world.items@.len(),
    ensures
        m == world.items@[idx as int].material,
        m.ok(),
{
    world.items[idx].material
}

/// Gamma correction: the square root of each channel, mapping an
/// averaged linear color into display space.
pub fn gamma_correction(c: Vec3) -> (r: Vec3)
    requires
        c.ok(),
    ensures
        r@ == (V3 { x: sqrt_raw(c@.x), y: sqrt_raw(c@.y), z: sqrt_raw(c@.z) }),
        r.ok(),
{
    Vec3 { x: c.x.sqrt(), y: c.y.sqrt(), z: c.z.sqrt() }
}

} // verus!


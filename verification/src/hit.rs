//! Surfaces that can be tested for ray intersection within a parametric
//! interval: the analytic sphere and the linear-scan scene aggregate.

use vstd::prelude::*;

use crate::fixed::Fx;
use crate::fixed::add_raw;
use crate::fixed::sub_raw;
use crate::fixed::neg_raw;
use crate::fixed::mul_raw;
use crate::fixed::div_raw;
use crate::fixed::sqrt_raw;
use crate::fixed::SCALE;
use crate::material::Material;
use crate::ray::Ray;
use crate::ray::RayV;
use crate::ray::ray_at;
use crate::vec3::V3;
use crate::vec3::Vec3;
use crate::vec3::v_dot;
use crate::vec3::v_sub;
use crate::vec3::v_neg;
use crate::vec3::v_div_s;

verus! {

/// Ghost mirror of a sphere's geometry.
pub ghost struct SphereV {
    pub center: V3,
    pub radius: int,
}

/// Ghost mirror of a hit record.
pub ghost struct HitV {
    pub t: int,
    pub p: V3,
    pub normal: V3,
}

/// The result of a successful intersection query: parametric distance,
/// hit point, and surface normal (signed by the sphere's radius).
#[derive(Clone, Copy, PartialEq, Eq, Structural, Debug)]
pub struct HitRecord {
    pub t: Fx,
    pub p: Vec3,
    pub normal: Vec3,
}

impl View for HitRecord {
    type V = HitV;

    open spec fn view(&self) -> HitV {
        HitV { t: self.t@, p: self.p@, normal: self.normal@ }
    }
}

impl HitRecord {
    /// All carried values lie in the saturation range.
    pub open spec fn ok(self) -> bool {
        self.t.ok() && self.p.ok() && self.normal.ok()
    }
}

/// A sphere with its owned material. A negative radius is allowed and
/// flips the surface normal inward, for hollow-shell effects.
#[derive(Clone, Copy, PartialEq, Eq, Structural, Debug)]
pub struct Sphere {
    pub center: Vec3,
    pub radius: Fx,
    pub material: Material,
}

impl View for Sphere {
    type V = SphereV;

    open spec fn view(&self) -> SphereV {
        SphereV { center: self.center@, radius: self.radius@ }
    }
}

impl Sphere {
    /// All carried values lie in the saturation range.
    pub open spec fn ok(self) -> bool {
        self.center.ok() && self.radius.ok() && self.material.ok()
    }
}

/// Quadratic coefficient `a = direction . direction`.
pub open spec fn sphere_a(r: RayV) -> int {
    v_dot(r.direction, r.direction)
}

/// Quadratic coefficient `b = (origin - center) . direction`.
pub open spec fn sphere_b(s: SphereV, r: RayV) -> int {
    v_dot(v_sub(r.origin, s.center), r.direction)
}

/// Quadratic coefficient `c = (origin - center) . (origin - center) - radius^2`.
pub open spec fn sphere_c(s: SphereV, r: RayV) -> int {
    sub_raw(
        v_dot(v_sub(r.origin, s.center), v_sub(r.origin, s.center)),
        mul_raw(s.radius, s.radius),
    )
}

/// Discriminant `b^2 - a c`; the ray misses exactly when it is negative.
pub open spec fn sphere_disc(s: SphereV, r: RayV) -> int {
    sub_raw(
        mul_raw(sphere_b(s, r), sphere_b(s, r)),
        mul_raw(sphere_a(r), sphere_c(s, r)),
    )
}

/// The nearer root `(-b - sqrt(disc)) / a`.
pub open spec fn sphere_t1(s: SphereV, r: RayV) -> int {
    div_raw(
        sub_raw(neg_raw(sphere_b(s, r)), sqrt_raw(sphere_disc(s, r))),
        sphere_a(r),
    )
}

/// The farther root `(-b + sqrt(disc)) / a`.
pub open spec fn sphere_t2(s: SphereV, r: RayV) -> int {
    div_raw(
        add_raw(neg_raw(sphere_b(s, r)), sqrt_raw(sphere_disc(s, r))),
        sphere_a(r),
    )
}

/// The record for a hit of the sphere at distance `t`: the hit point and
/// the normal `(p - center) / radius`.
pub open spec fn sphere_record(s: SphereV, r: RayV, t: int) -> HitV {
    HitV {
        t,
        p: ray_at(r, t),
        normal: v_div_s(v_sub(ray_at(r, t), s.center), s.radius),
    }
}

/// The full intersection test: no hit when the discriminant is negative;
/// otherwise the nearer root if it lies within `[t_min, t_max]`, else the
/// farther root if it does, else no hit.
pub open spec fn sphere_hit_spec(s: SphereV, r: RayV, t_min: int, t_max: int)
    -> Option<HitV> {
    if sphere_disc(s, r) < 0 {
        None
    } else if t_min <= sphere_t1(s, r) && sphere_t1(s, r) <= t_max {
        Some(sphere_record(s, r, sphere_t1(s, r)))
    } else if t_min <= sphere_t2(s, r) && sphere_t2(s, r) <= t_max {
        Some(sphere_record(s, r, sphere_t2(s, r)))
    } else {
        None
    }
}

impl Sphere {
    /// Analytic ray-sphere intersection within `[t_min, t_max]`. Any
    /// returned record has its distance inside the interval.
    pub fn hit(&self, ray: &Ray, t_min: Fx, t_max: Fx) -> (res: Option<HitRecord>)
        requires
            self.ok(),
            ray.ok(),
            t_min.ok(),
            t_max.ok(),
        ensures
            res matches Some(h) ==> sphere_hit_spec(self@, ray@, t_min@, t_max@)
                == Some(h@) && h.ok() && t_min@ <= h.t@ <= t_max@,
            res is None ==> sphere_hit_spec(self@, ray@, t_min@, t_max@) is None,
    {
        let oc = ray.origin.sub(self.center);
        let a = ray.direction.dot(ray.direction);
        let b = oc.dot(ray.direction);
        let c = oc.dot(oc).sub(self.radius.mul(self.radius));
        let disc = b.mul(b).sub(a.mul(c));
        if disc.raw < 0 {
            return None;
        }
        let sq = disc.sqrt();
        let t1 = b.neg().sub(sq).div(a);
        if t_min.le(t1) && t1.le(t_max) {
            let p = ray.point_at_parameter(t1);
            return Some(HitRecord {
                t: t1,
                p,
                normal: p.sub(self.center).div_s(self.radius),
            });
        }
        let t2 = b.neg().add(sq).div(a);
        if t_min.le(t2) && t2.le(t_max) {
            let p = ray.point_at_parameter(t2);
            return Some(HitRecord {
                t: t2,
                p,
                normal: p.sub(self.center).div_s(self.radius),
            });
        }
        None
    }
}

/// A scene: an ordered collection of spheres, scanned linearly for the
/// closest hit.
pub struct HitList {
    pub items: Vec<Sphere>,
}

impl View for HitList {
    type V = Seq<SphereV>;

    open spec fn view(&self) -> Seq<SphereV> {
        self.items@.map_values(|s: Sphere| s@)
    }
}

/// The closest hit among the first `n` spheres, with the index of the
/// sphere that produced it: each sphere is tested against an interval
/// whose upper end shrinks to the closest distance found so far.
pub open spec fn scene_hit_upto(
    items: Seq<SphereV>,
    r: RayV,
    t_min: int,
    t_max: int,
    n: int,
) -> Option<(HitV, int)>
    decreases n,
{
    if n <= 0 {
        None
    } else {
        let prev = scene_hit_upto(items, r, t_min, t_max, n - 1);
        let cur_max = match prev {
            Some(pi) => pi.0.t,
            None => t_max,
        };
        match sphere_hit_spec(items[n - 1], r, t_min, cur_max) {
            Some(h) => Some((h, n - 1)),
            None => prev,
        }
    }
}

/// The closest hit in the whole scene.
pub open spec fn scene_hit_spec(items: Seq<SphereV>, r: RayV, t_min: int, t_max: int)
    -> Option<(HitV, int)> {
    scene_hit_upto(items, r, t_min, t_max, items.len() as int)
}

impl HitList {
    /// Every sphere's values lie in the saturation range.
    pub open spec fn ok(self) -> bool {
        forall|i: int| 0 <= i < self.items@.len() ==> (#[trigger] self.items@[i]).ok()
    }

    /// A scene over the given spheres.
    pub fn new(items: Vec<Sphere>) -> (r: HitList)
        ensures
            r.items == items,
    {
        HitList { items }
    }

    /// The closest hit among all spheres within `[t_min, t_max]`,
    /// together with the index of the sphere that was hit. Any returned
    /// record has its distance inside the interval.
    pub fn hit(&self, ray: &Ray, t_min: Fx, t_max: Fx) -> (res: Option<(HitRecord, usize)>)
        requires
            self.ok(),
            ray.ok(),
            t_min.ok(),
            t_max.ok(),
        ensures
            res matches Some(pair) ==> scene_hit_spec(self@, ray@, t_min@, t_max@)
                == Some((pair.0@, pair.1 as int)) && pair.1 < self.items@.len()
                && pair.0.ok() && t_min@ <= pair.0.t@ <= t_max@,
            res is None ==> scene_hit_spec(self@, ray@, t_min@, t_max@) is None,
    {
        let mut closest = t_max;
        let mut result: Option<(HitRecord, usize)> = None;
        let mut i: usize = 0;
        while i < self.items.len()
            invariant
                self.ok(),
                ray.ok(),
                t_min.ok(),
                t_max.ok(),
                closest.ok(),
                i <= self.items.len(),
                match result {
                    Some(pair) => scene_hit_upto(self@, ray@, t_min@, t_max@, i as int)
                        == Some((pair.0@, pair.1 as int)) && pair.1 < i
                        && pair.0.ok() && closest@ == pair.0.t@
                        && t_min@ <= pair.0.t@ <= t_max@,
                    None => scene_hit_upto(self@, ray@, t_min@, t_max@, i as int) is None
                        && closest@ == t_max@,
                },
            decreases self.items.len() - i,
        {
            let sph = self.items[i];
            proof {
                assert(self@[i as int] == self.items@[i as int]@);
            }
            match sph.hit(ray, t_min, closest) {
                Some(h) => {
                    closest = h.t;
                    result = Some((h, i));
                }
                None => {}
            }
            i += 1;
        }
        result
    }
}

/// The dot product of a vector with itself is never negative, so the
/// quadratic coefficient `a` is never negative.
pub proof fn lemma_dot_self_nonneg(v: V3)
    ensures
        v_dot(v, v) >= 0,
{
    crate::fixed::lemma_mul_raw_sq_nonneg(v.x);
    crate::fixed::lemma_mul_raw_sq_nonneg(v.y);
    crate::fixed::lemma_mul_raw_sq_nonneg(v.z);
}

/// The nearer root never exceeds the farther root.
pub proof fn lemma_sphere_t1_le_t2(s: SphereV, r: RayV)
    ensures
        sphere_t1(s, r) <= sphere_t2(s, r),
{
    let a = sphere_a(r);
    lemma_dot_self_nonneg(r.direction);
    if a > 0 {
        let sq = sqrt_raw(sphere_disc(s, r));
        crate::fixed::lemma_sqrt_raw_nonneg(sphere_disc(s, r));
        let n1 = sub_raw(neg_raw(sphere_b(s, r)), sq);
        let n2 = add_raw(neg_raw(sphere_b(s, r)), sq);
        assert(n1 <= n2);
        crate::fixed::lemma_tdiv_mono(n1 * (SCALE as int), n2 * (SCALE as int), a);
    }
}

/// Any record a sphere returns lies within the queried interval.
pub proof fn lemma_sphere_hit_in_interval(
    s: SphereV,
    r: RayV,
    t_min: int,
    t_max: int,
    h: HitV,
)
    requires
        sphere_hit_spec(s, r, t_min, t_max) == Some(h),
    ensures
        t_min <= h.t <= t_max,
{
}

/// Shrinking the upper end of the interval down to (or past) a hit's
/// distance keeps that hit.
pub proof fn lemma_sphere_hit_shrink(s: SphereV, r: RayV, t_min: int, t_max: int, c: int, h: HitV)
    requires
        sphere_hit_spec(s, r, t_min, t_max) == Some(h),
        h.t <= c <= t_max,
    ensures
        sphere_hit_spec(s, r, t_min, c) == Some(h),
{
    lemma_sphere_t1_le_t2(s, r);
}

/// A sphere whose hit lies beyond `c` yields no hit at all on the
/// interval shrunk to `c`.
pub proof fn lemma_sphere_hit_beyond(s: SphereV, r: RayV, t_min: int, t_max: int, c: int, h: HitV)
    requires
        sphere_hit_spec(s, r, t_min, t_max) == Some(h),
        h.t > c,
        c <= t_max,
    ensures
        sphere_hit_spec(s, r, t_min, c) is None,
{
    lemma_sphere_t1_le_t2(s, r);
}

/// Closest-hit aggregation: a scene of two spheres that a ray hits at
/// distances `h0.t` and `h1.t` returns the smaller of the two, together
/// with that sphere's own record (ties go to the later sphere).
pub proof fn lemma_scene_closest_of_two(
    s0: SphereV,
    s1: SphereV,
    r: RayV,
    t_min: int,
    t_max: int,
    h0: HitV,
    h1: HitV,
)
    requires
        sphere_hit_spec(s0, r, t_min, t_max) == Some(h0),
        sphere_hit_spec(s1, r, t_min, t_max) == Some(h1),
    ensures
        scene_hit_spec(seq![s0, s1], r, t_min, t_max) == (if h1.t <= h0.t {
            Some((h1, 1int))
        } else {
            Some((h0, 0int))
        }),
{
    let items = seq![s0, s1];
    assert(items[0] == s0 && items[1] == s1);
    assert(scene_hit_upto(items, r, t_min, t_max, 0) is None);
    lemma_sphere_hit_in_interval(s0, r, t_min, t_max, h0);
    lemma_sphere_hit_in_interval(s1, r, t_min, t_max, h1);
    assert(scene_hit_upto(items, r, t_min, t_max, 1) == Some((h0, 0int)));
    if h1.t <= h0.t {
        lemma_sphere_hit_shrink(s1, r, t_min, t_max, h0.t, h1);
    } else {
        lemma_sphere_hit_beyond(s1, r, t_min, t_max, h0.t, h1);
    }
}

/// Negative-radius normal inversion: spheres of equal center and
/// opposite radii are hit at the same distances and points, with
/// opposite-signed normals.
pub proof fn lemma_negative_radius_flips_normal(
    s1: SphereV,
    s2: SphereV,
    r: RayV,
    t_min: int,
    t_max: int,
)
    requires
        s2.center == s1.center,
        s2.radius == -s1.radius,
    ensures
        (sphere_hit_spec(s1, r, t_min, t_max) is Some)
            == (sphere_hit_spec(s2, r, t_min, t_max) is Some),
        sphere_hit_spec(s1, r, t_min, t_max) matches Some(h1)
            ==> (sphere_hit_spec(s2, r, t_min, t_max) matches Some(h2)
                && h2.t == h1.t && h2.p == h1.p && h2.normal == v_neg(h1.normal)),
{
    crate::fixed::lemma_mul_raw_neg_neg(s1.radius, s1.radius);
    assert(sphere_c(s2, r) == sphere_c(s1, r));
    assert(sphere_disc(s2, r) == sphere_disc(s1, r));
    assert(sphere_t1(s2, r) == sphere_t1(s1, r));
    assert(sphere_t2(s2, r) == sphere_t2(s1, r));
    if sphere_hit_spec(s1, r, t_min, t_max) is Some {
        let h1 = sphere_hit_spec(s1, r, t_min, t_max)->Some_0;
        let d = v_sub(ray_at(r, h1.t), s1.center);
        crate::fixed::lemma_div_raw_neg_divisor(d.x, s1.radius);
        crate::fixed::lemma_div_raw_neg_divisor(d.y, s1.radius);
        crate::fixed::lemma_div_raw_neg_divisor(d.z, s1.radius);
    }
}

} // verus!


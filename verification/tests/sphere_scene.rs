//! Tests for sphere intersection and closest-hit aggregation.

use raytrace::fixed::Fx;
use raytrace::fixed::MAX_RAW;
use raytrace::hit::HitList;
use raytrace::hit::Sphere;
use raytrace::material::Lambertian;
use raytrace::material::Material;
use raytrace::ray::Ray;
use raytrace::rng::RandomSource;
use raytrace::vec3::Vec3;

fn v(x: i64, y: i64, z: i64) -> Vec3 {
    Vec3::new(Fx::from_raw(x), Fx::from_raw(y), Fx::from_raw(z))
}

fn gray() -> Material {
    Material::Lambertian(Lambertian { albedo: v(32768, 32768, 32768) })
}

const ONE: i64 = 65536;

#[test]
fn t_sphere_axis_hit() {
    // Sphere of radius 0.5 at the origin, ray from (0,0,5) toward
    // (0,0,-1): hits at t = 5 - 0.5 = 4.5 with normal (0,0,1).
    let s = Sphere { center: v(0, 0, 0), radius: Fx::from_raw(32768), material: gray() };
    let ray = Ray { origin: v(0, 0, 5 * ONE), direction: v(0, 0, -ONE) };
    let h = s.hit(&ray, Fx::from_raw(66), Fx { raw: MAX_RAW }).unwrap();
    assert_eq!(h.t.raw, 294912); // 4.5
    assert_eq!((h.p.x.raw, h.p.y.raw, h.p.z.raw), (0, 0, 32768));
    assert_eq!((h.normal.x.raw, h.normal.y.raw, h.normal.z.raw), (0, 0, ONE as i128));
}

#[test]
fn t_sphere_axis_hit_unit_radius() {
    let s = Sphere { center: v(0, 0, 0), radius: Fx::one(), material: gray() };
    let ray = Ray { origin: v(0, 0, 5 * ONE), direction: v(0, 0, -ONE) };
    let h = s.hit(&ray, Fx::from_raw(66), Fx { raw: MAX_RAW }).unwrap();
    assert_eq!(h.t.raw, 4 * ONE as i128);
    assert_eq!((h.normal.x.raw, h.normal.y.raw, h.normal.z.raw), (0, 0, ONE as i128));
}

#[test]
fn t_sphere_miss() {
    let s = Sphere { center: v(0, 0, 0), radius: Fx::from_raw(32768), material: gray() };
    let ray = Ray { origin: v(0, 0, 5 * ONE), direction: v(0, ONE, 0) };
    assert!(s.hit(&ray, Fx::from_raw(66), Fx { raw: MAX_RAW }).is_none());
}

#[test]
fn t_hit_interval_respected() {
    // Randomized spheres and rays: any returned t lies in [t_min, t_max].
    let mut rng = RandomSource::from_seed(7);
    let t_min = Fx::from_raw(66);
    for round in 0..200u64 {
        let mut draw = |k: i64| -> Fx {
            let b = rng.next_symmetric();
            Fx::from_raw(b.raw as i64 * k)
        };
        let s = Sphere {
            center: Vec3::new(draw(4), draw(4), draw(4)),
            radius: draw(2),
            material: gray(),
        };
        let ray = Ray {
            origin: Vec3::new(draw(4), draw(4), draw(4)),
            direction: Vec3::new(draw(1), draw(1), draw(1)),
        };
        let t_max = Fx::from_raw(65536 * (1 + (round as i64 % 16)));
        if let Some(h) = s.hit(&ray, t_min, t_max) {
            assert!(t_min.raw <= h.t.raw && h.t.raw <= t_max.raw);
        }
    }
}

#[test]
fn t_scene_closest_of_two() {
    // Two spheres along the ray: the scene returns the nearer hit, and
    // it matches that sphere's own record.
    let near = Sphere { center: v(0, 0, -ONE), radius: Fx::from_raw(32768), material: gray() };
    let far = Sphere { center: v(0, 0, -2 * ONE), radius: Fx::from_raw(32768), material: gray() };
    let ray = Ray { origin: v(0, 0, 0), direction: v(0, 0, -ONE) };
    let t_min = Fx::from_raw(66);
    let t_max = Fx { raw: MAX_RAW };

    let own = near.hit(&ray, t_min, t_max).unwrap();
    assert_eq!(own.t.raw, 32768); // t = 0.5

    let scene = HitList::new(vec![near, far]);
    let (h, idx) = scene.hit(&ray, t_min, t_max).unwrap();
    assert_eq!(idx, 0);
    assert_eq!(h.t.raw, own.t.raw);
    assert_eq!(h.p.z.raw, own.p.z.raw);

    // The same scene with the order swapped still returns the nearer hit.
    let scene2 = HitList::new(vec![far, near]);
    let (h2, idx2) = scene2.hit(&ray, t_min, t_max).unwrap();
    assert_eq!(idx2, 1);
    assert_eq!(h2.t.raw, own.t.raw);
}

#[test]
fn t_negative_radius_flips_normal() {
    // Equal centers, radii 0.5 and -0.5: same hit, opposite normals.
    let outer = Sphere { center: v(0, 0, -ONE), radius: Fx::from_raw(32768), material: gray() };
    let inner = Sphere { center: v(0, 0, -ONE), radius: Fx::from_raw(-32768), material: gray() };
    let ray = Ray { origin: v(0, 0, 0), direction: v(0, 0, -ONE) };
    let t_min = Fx::from_raw(66);
    let t_max = Fx { raw: MAX_RAW };
    let h1 = outer.hit(&ray, t_min, t_max).unwrap();
    let h2 = inner.hit(&ray, t_min, t_max).unwrap();
    assert_eq!(h1.t.raw, h2.t.raw);
    assert_eq!(h1.p.z.raw, h2.p.z.raw);
    assert_eq!(h1.normal.z.raw, 65536);
    assert_eq!(h2.normal.z.raw, -65536);
    assert_eq!(h1.normal.x.raw, -h2.normal.x.raw);
    assert_eq!(h1.normal.y.raw, -h2.normal.y.raw);
}

#[test]
fn t_empty_scene_misses() {
    let scene = HitList::new(vec![]);
    let ray = Ray { origin: v(0, 0, 0), direction: v(0, 0, -ONE) };
    assert!(scene.hit(&ray, Fx::from_raw(66), Fx { raw: MAX_RAW }).is_none());
}

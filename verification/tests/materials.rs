//! Tests for the rejection sampler and the three materials.

use raytrace::fixed::Fx;
use raytrace::material::Dielectric;
use raytrace::material::Lambertian;
use raytrace::material::Metal;
use raytrace::material::random_in_unit_sphere;
use raytrace::material::schlick;
use raytrace::ray::Ray;
use raytrace::rng::RandomSource;
use raytrace::vec3::Vec3;

fn v(x: i64, y: i64, z: i64) -> Vec3 {
    Vec3::new(Fx::from_raw(x), Fx::from_raw(y), Fx::from_raw(z))
}

const ONE: i64 = 65536;

#[test]
fn t_unit_sphere_samples_bounded() {
    // Every sample has squared length < 1, and the mean length over
    // many samples is near the analytic expectation of 0.75.
    let mut rng = RandomSource::from_seed(11);
    let mut sum_len: i64 = 0;
    let n: i64 = 10000;
    for _ in 0..n {
        let s = random_in_unit_sphere(&mut rng);
        let len_sq = s.length_squared();
        assert!(len_sq.raw < ONE as i128);
        sum_len += s.length().raw as i64;
    }
    let mean: i64 = sum_len / n;
    // 0.75 is 49152 raw; allow a generous statistical margin.
    assert!(47000 < mean && mean < 51000, "mean length {}", mean);
}

#[test]
fn t_lambertian_always_scatters() {
    let mut rng = RandomSource::from_seed(3);
    let mat = Lambertian { albedo: v(52429, 19661, 19661) };
    let ray = Ray { origin: v(0, 0, 0), direction: v(0, 0, -ONE) };
    for _ in 0..100 {
        let s = mat.scatter(&ray, v(0, 0, -32768), v(0, 0, ONE), &mut rng).unwrap();
        assert_eq!(s.attenuation.x.raw, 52429);
        assert_eq!(s.scattered.origin.z.raw, -32768);
    }
}

#[test]
fn t_metal_mirror_never_absorbed() {
    // fuzz = 0: the unperturbed reflection decides; an incoming ray at
    // 45 degrees is always scattered, to the exact mirror direction.
    let mut rng = RandomSource::from_seed(5);
    let mat = Metal { albedo: v(52429, 39322, 13107), fuzz: Fx::zero() };
    let ray = Ray { origin: v(0, 0, ONE), direction: v(0, -ONE, -ONE) };
    for _ in 0..100 {
        let s = mat.scatter(&ray, v(0, -ONE, 0), v(0, 0, ONE), &mut rng).unwrap();
        assert_eq!(s.scattered.direction.x.raw, 0);
        assert_eq!(s.scattered.direction.y.raw, -46341);
        assert_eq!(s.scattered.direction.z.raw, 46341);
        assert_eq!(s.attenuation.y.raw, 39322);
    }
}

#[test]
fn t_metal_below_surface_absorbed() {
    // A direction leaving along the normal reflects to below the
    // surface and is absorbed.
    let mut rng = RandomSource::from_seed(5);
    let mat = Metal { albedo: v(52429, 39322, 13107), fuzz: Fx::zero() };
    let ray = Ray { origin: v(0, 0, 0), direction: v(0, 0, ONE) };
    assert!(mat.scatter(&ray, v(0, 0, 0), v(0, 0, ONE), &mut rng).is_none());
}

#[test]
fn t_dielectric_never_absorbs() {
    let mut rng = RandomSource::from_seed(9);
    let mat = Dielectric { refractive_index: Fx::from_raw(98304) };
    let ray = Ray { origin: v(0, 0, 0), direction: v(0, -32768, -ONE) };
    for _ in 0..100 {
        let s = mat.scatter(&ray, v(0, -16384, -32768), v(0, 0, ONE), &mut rng).unwrap();
        // A dielectric never attenuates: white.
        assert_eq!(s.attenuation.x.raw, ONE as i128);
        assert_eq!(s.attenuation.y.raw, ONE as i128);
        assert_eq!(s.attenuation.z.raw, ONE as i128);
    }
}

#[test]
fn t_dielectric_total_internal_reflection() {
    // A ray leaving the glass almost parallel to the surface: refraction
    // is geometrically impossible, so every draw reflects, exactly.
    let mut rng = RandomSource::from_seed(13);
    let mat = Dielectric { refractive_index: Fx::from_raw(98304) };
    let ray = Ray { origin: v(0, 0, 0), direction: v(58982, 6554, 0) };
    for _ in 0..50 {
        let s = mat.scatter(&ray, v(0, 0, 0), v(0, ONE, 0), &mut rng).unwrap();
        assert_eq!(s.scattered.direction.x.raw, 58982);
        assert_eq!(s.scattered.direction.y.raw, -6554);
        assert_eq!(s.scattered.direction.z.raw, 0);
    }
}

#[test]
fn t_schlick_normal_incidence() {
    // cosine = 1, n = 1.5: r0 = ((1-1.5)/(1+1.5))^2 = 0.04, and the
    // fifth-power term vanishes.
    let r = schlick(Fx::one(), Fx::from_raw(98304));
    assert_eq!(r.raw, 2621); // about 0.04
}

#[test]
fn t_schlick_grazing_is_larger() {
    // Reflectance grows toward grazing incidence.
    let n = Fx::from_raw(98304);
    let normal = schlick(Fx::one(), n);
    let grazing = schlick(Fx::from_raw(6554), n);
    assert!(grazing.raw > normal.raw);
}

//! Tests for the camera, the background gradient, the depth cutoff and
//! the end-to-end pixel trace.

use raytrace::camera::Camera;
use raytrace::fixed::Fx;
use raytrace::hit::HitList;
use raytrace::hit::Sphere;
use raytrace::material::Lambertian;
use raytrace::material::Material;
use raytrace::material::Metal;
use raytrace::ray::Ray;
use raytrace::rng::RandomSource;
use raytrace::trace::background;
use raytrace::trace::color;
use raytrace::trace::gamma_correction;
use raytrace::vec3::Vec3;

fn v(x: i64, y: i64, z: i64) -> Vec3 {
    Vec3::new(Fx::from_raw(x), Fx::from_raw(y), Fx::from_raw(z))
}

const ONE: i64 = 65536;

#[test]
fn t_background_up_is_sky() {
    let ray = Ray { origin: v(0, 0, 0), direction: v(0, ONE, 0) };
    let c = background(&ray);
    assert_eq!((c.x.raw, c.y.raw, c.z.raw), (32768, 45875, 65536));
}

#[test]
fn t_background_down_is_white() {
    let ray = Ray { origin: v(0, 0, 0), direction: v(0, -ONE, 0) };
    let c = background(&ray);
    assert_eq!((c.x.raw, c.y.raw, c.z.raw), (65536, 65536, 65536));
}

#[test]
fn t_empty_scene_is_background() {
    let scene = HitList::new(vec![]);
    let mut rng = RandomSource::from_seed(1);
    let ray = Ray { origin: v(0, 0, 0), direction: v(0, ONE, 0) };
    let c = color(ray, &scene, 0, &mut rng);
    assert_eq!((c.x.raw, c.y.raw, c.z.raw), (32768, 45875, 65536));
    // The depth does not matter when nothing is hit.
    let c2 = color(ray, &scene, 50, &mut rng);
    assert_eq!(c2.x.raw, 32768);
}

#[test]
fn t_depth_cutoff_returns_black() {
    // Two facing mirror-finish spheres; starting at the depth limit,
    // the first hit immediately ends the path at black.
    let mirror = |z: i64| Sphere {
        center: v(0, 0, z),
        radius: Fx::from_raw(32768),
        material: Material::Metal(Metal { albedo: v(ONE, ONE, ONE), fuzz: Fx::zero() }),
    };
    let scene = HitList::new(vec![mirror(-2 * ONE), mirror(2 * ONE)]);
    let mut rng = RandomSource::from_seed(2);
    let ray = Ray { origin: v(0, 0, 0), direction: v(0, 0, -ONE) };
    let c = color(ray, &scene, 50, &mut rng);
    assert_eq!((c.x.raw, c.y.raw, c.z.raw), (0, 0, 0));
    let c2 = color(ray, &scene, 51, &mut rng);
    assert_eq!((c2.x.raw, c2.y.raw, c2.z.raw), (0, 0, 0));
}

#[test]
fn t_camera_center_ray() {
    // Half extents 0.5: the image-plane center lies straight ahead.
    let cam = Camera::new(Fx::from_raw(32768), Fx::from_raw(32768));
    let r = cam.get_ray(Fx::from_raw(32768), Fx::from_raw(32768));
    assert_eq!((r.origin.x.raw, r.origin.y.raw, r.origin.z.raw), (0, 0, 0));
    assert_eq!((r.direction.x.raw, r.direction.y.raw, r.direction.z.raw), (0, 0, -(ONE as i128)));
}

#[test]
fn t_gamma_correction_values() {
    let g = gamma_correction(v(16384, ONE, 0));
    assert_eq!((g.x.raw, g.y.raw, g.z.raw), (32768, 65536, 0));
}

#[test]
fn t_end_to_end_pixel() {
    // A 2x2 image with half extents 0.5: the center of the lower-left
    // pixel is at (u, v) = (0.25, 0.25). The scene is a single diffuse
    // sphere of radius 0.5 at (0,0,-1), albedo (0.8, 0.3, 0.3). With a
    // fixed seed, one sample reproduces a recorded color.
    let cam = Camera::new(Fx::from_raw(32768), Fx::from_raw(32768));
    let ray = cam.get_ray(Fx::from_raw(16384), Fx::from_raw(16384));
    assert_eq!(
        (ray.direction.x.raw, ray.direction.y.raw, ray.direction.z.raw),
        (-16384, -16384, -(ONE as i128)),
    );
    let scene = HitList::new(vec![Sphere {
        center: v(0, 0, -ONE),
        radius: Fx::from_raw(32768),
        material: Material::Lambertian(Lambertian { albedo: v(52429, 19661, 19661) }),
    }]);
    let mut rng = RandomSource::from_seed(42);
    let c = color(ray, &scene, 0, &mut rng);
    assert_eq!((c.x.raw, c.y.raw, c.z.raw), (46403, 18305, 19661));
}

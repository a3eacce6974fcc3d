//! A verified ray tracer core over saturating fixed-point arithmetic.
//!
//! - `fixed`: the scalar type and its exact arithmetic model;
//! - `vec3`, `ray`: vectors, colors and rays;
//! - `rng`: the seedable random source (the only trusted boundary);
//! - `hit`: sphere intersection and closest-hit scene aggregation;
//! - `material`: diffuse, metallic and refractive scattering;
//! - `camera`: view-ray generation from image coordinates;
//! - `trace`: the bounded path integrator and the background gradient.

pub mod fixed;
pub mod vec3;
pub mod ray;
pub mod rng;
pub mod material;
pub mod hit;
pub mod camera;
pub mod trace;

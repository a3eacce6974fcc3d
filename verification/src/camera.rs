//! The camera: stores the image-plane frame and maps normalized image
//! coordinates to view rays.
//!
//! The frame is built from the half-extents of the image plane at unit
//! distance (for a vertical field of view `f` and aspect ratio `a`,
//! these are `tan(f / 2)` and `a * tan(f / 2)`, computed by the caller).

use vstd::prelude::*;

use crate::fixed::Fx;
use crate::fixed::SCALE;
use crate::fixed::mul_raw;
use crate::fixed::neg_raw;
use crate::ray::Ray;
use crate::vec3::V3;
use crate::vec3::Vec3;
use crate::vec3::v_add;
use crate::vec3::v_sub;
use crate::vec3::v_scale;

verus! {

/// A camera at the origin looking along the negative z axis.
pub struct Camera {
    pub origin: Vec3,
    pub lower_left_corner: Vec3,
    pub horizontal: Vec3,
    pub vertical: Vec3,
}

impl Camera {
    /// All stored vectors lie in the saturation range.
    pub open spec fn ok(self) -> bool {
        self.origin.ok() && self.lower_left_corner.ok() && self.horizontal.ok()
            && self.vertical.ok()
    }

    /// A camera whose image plane at distance 1 extends `half_width` to
    /// each side and `half_height` up and down.
    pub fn new(half_width: Fx, half_height: Fx) -> (c: Camera)
        requires
            half_width.ok(),
            half_height.ok(),
        ensures
            c.ok(),
            c.origin@ == (V3 { x: 0, y: 0, z: 0 }),
            c.lower_left_corner@ == (V3 {
                x: neg_raw(half_width@),
                y: neg_raw(half_height@),
                z: neg_raw(SCALE as int),
            }),
            c.horizontal@ == (V3 { x: mul_raw(2 * SCALE as int, half_width@), y: 0, z: 0 }),
            c.vertical@ == (V3 { x: 0, y: mul_raw(2 * SCALE as int, half_height@), z: 0 }),
    {
        let zero = Fx::zero();
        let two = Fx::from_int(2);
        Camera {
            origin: Vec3::zero(),
            lower_left_corner: Vec3::new(half_width.neg(), half_height.neg(), Fx::one().neg()),
            horizontal: Vec3::new(two.mul(half_width), zero, zero),
            vertical: Vec3::new(zero, two.mul(half_height), zero),
        }
    }

    /// The view ray for normalized image coordinates `(u, v)` in
    /// `[0, 1]^2`: from the origin toward the matching point of the
    /// image plane.
    pub fn get_ray(&self, u: Fx, v: Fx) -> (r: Ray)
        requires
            self.ok(),
            u.ok(),
            v.ok(),
        ensures
            r.ok(),
            r.origin@ == self.origin@,
            r.direction@ == v_sub(
                v_add(
                    v_add(self.lower_left_corner@, v_scale(u@, self.horizontal@)),
                    v_scale(v@, self.vertical@),
                ),
                self.origin@,
            ),
    {
        Ray {
            origin: self.origin,
            direction: self
                .lower_left_corner
                .add(self.horizontal.scale(u))
                .add(self.vertical.scale(v))
                .sub(self.origin),
        }
    }
}

} // verus!

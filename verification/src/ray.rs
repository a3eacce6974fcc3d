//! Rays: an origin point and a direction vector.

use vstd::prelude::*;

use crate::fixed::Fx;
use crate::vec3::V3;
use crate::vec3::Vec3;
use crate::vec3::v_add;
use crate::vec3::v_scale;

verus! {

/// Ghost mirror of a ray.
pub ghost struct RayV {
    pub origin: V3,
    pub direction: V3,
}

/// A ray: origin point plus direction vector.
#[derive(Clone, Copy, PartialEq, Eq, Structural, Debug)]
pub struct Ray {
    pub origin: Vec3,
    pub direction: Vec3,
}

impl View for Ray {
    type V = RayV;

    open spec fn view(&self) -> RayV {
        RayV { origin: self.origin@, direction: self.direction@ }
    }
}

/// The point `origin + t * direction`.
pub open spec fn ray_at(r: RayV, t: int) -> V3 {
    v_add(r.origin, v_scale(t, r.direction))
}

impl Ray {
    /// Both origin and direction lie in the saturation range.
    pub open spec fn ok(self) -> bool {
        self.origin.ok() && self.direction.ok()
    }

    /// The point at parametric distance `t` along the ray.
    pub fn point_at_parameter(self, t: Fx) -> (p: Vec3)
        requires
            self.ok(),
            t.ok(),
        ensures
            p@ == ray_at(self@, t@),
            p.ok(),
    {
        self.origin.add(self.direction.scale(t))
    }
}

} // verus!

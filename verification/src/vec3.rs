//! Three-component fixed-point vectors, used as points, directions and
//! colors. Contracts state every result exactly over the ghost mirror
//! type `V3`, whose components are the raw fixed-point values.

use vstd::prelude::*;

use crate::fixed::Fx;
use crate::fixed::SCALE;
use crate::fixed::add_raw;
use crate::fixed::sub_raw;
use crate::fixed::neg_raw;
use crate::fixed::mul_raw;
use crate::fixed::div_raw;
use crate::fixed::sqrt_raw;

verus! {

/// Ghost mirror of a vector: the three raw component values.
pub ghost struct V3 {
    pub x: int,
    pub y: int,
    pub z: int,
}

/// A three-component fixed-point vector.
#[derive(Clone, Copy, PartialEq, Eq, Structural, Debug)]
pub struct Vec3 {
    pub x: Fx,
    pub y: Fx,
    pub z: Fx,
}

impl View for Vec3 {
    type V = V3;

    open spec fn view(&self) -> V3 {
        V3 { x: self.x@, y: self.y@, z: self.z@ }
    }
}

/// Componentwise saturated sum.
pub open spec fn v_add(a: V3, b: V3) -> V3 {
    V3 { x: add_raw(a.x, b.x), y: add_raw(a.y, b.y), z: add_raw(a.z, b.z) }
}

/// Componentwise saturated difference.
pub open spec fn v_sub(a: V3, b: V3) -> V3 {
    V3 { x: sub_raw(a.x, b.x), y: sub_raw(a.y, b.y), z: sub_raw(a.z, b.z) }
}

/// Componentwise saturated negation.
pub open spec fn v_neg(a: V3) -> V3 {
    V3 { x: neg_raw(a.x), y: neg_raw(a.y), z: neg_raw(a.z) }
}

/// Scaling by a fixed-point scalar, componentwise.
pub open spec fn v_scale(t: int, a: V3) -> V3 {
    V3 { x: mul_raw(t, a.x), y: mul_raw(t, a.y), z: mul_raw(t, a.z) }
}

/// Componentwise product (color attenuation).
pub open spec fn v_cmul(a: V3, b: V3) -> V3 {
    V3 { x: mul_raw(a.x, b.x), y: mul_raw(a.y, b.y), z: mul_raw(a.z, b.z) }
}

/// Division of every component by a fixed-point scalar.
pub open spec fn v_div_s(a: V3, d: int) -> V3 {
    V3 { x: div_raw(a.x, d), y: div_raw(a.y, d), z: div_raw(a.z, d) }
}

/// Dot product: the three component products summed left to right.
pub open spec fn v_dot(a: V3, b: V3) -> int {
    add_raw(add_raw(mul_raw(a.x, b.x), mul_raw(a.y, b.y)), mul_raw(a.z, b.z))
}

/// Squared length.
pub open spec fn v_len_sq(a: V3) -> int {
    v_dot(a, a)
}

/// Length: fixed-point square root of the squared length.
pub open spec fn v_len(a: V3) -> int {
    sqrt_raw(v_len_sq(a))
}

/// Normalization: each component divided by the length (zero-length
/// vectors map to the zero vector, since division by zero yields zero).
pub open spec fn v_norm(a: V3) -> V3 {
    v_div_s(a, v_len(a))
}

/// Reflection of `d` about the normal `n`: `d - 2 (d . n) n`.
pub open spec fn v_reflect(d: V3, n: V3) -> V3 {
    v_sub(d, v_scale(mul_raw(2 * (SCALE as int), v_dot(d, n)), n))
}

/// Linear interpolation `(1 - t) a + t b`.
pub open spec fn v_lerp(a: V3, b: V3, t: int) -> V3 {
    v_add(v_scale(sub_raw(SCALE as int, t), a), v_scale(t, b))
}

/// Cosine of the refraction geometry: `-(unit(d) . n)`.
pub open spec fn refract_cos(d: V3, n: V3) -> int {
    neg_raw(v_dot(v_norm(d), n))
}

/// Refraction discriminant `1 - ni^2 (1 - cos^2)`; refraction is
/// geometrically possible exactly when it is non-negative.
pub open spec fn refract_disc(d: V3, n: V3, ni: int) -> int {
    sub_raw(
        SCALE as int,
        mul_raw(
            mul_raw(ni, ni),
            sub_raw(SCALE as int, mul_raw(refract_cos(d, n), refract_cos(d, n))),
        ),
    )
}

/// Refracted direction `ni * u + n * (ni * cos - sqrt(disc))`, where `u`
/// is the unit incoming direction.
pub open spec fn refract_dir(d: V3, n: V3, ni: int) -> V3 {
    v_add(
        v_scale(ni, v_norm(d)),
        v_scale(
            sub_raw(mul_raw(ni, refract_cos(d, n)), sqrt_raw(refract_disc(d, n, ni))),
            n,
        ),
    )
}

/// All three components lie in the saturation range.
pub open spec fn v_ok(v: Vec3) -> bool {
    v.x.ok() && v.y.ok() && v.z.ok()
}

impl Vec3 {
    /// All three components lie in the saturation range.
    pub open spec fn ok(self) -> bool {
        v_ok(self)
    }

    /// The vector with the given components.
    pub fn new(x: Fx, y: Fx, z: Fx) -> (r: Vec3)
        ensures
            r@ == (V3 { x: x@, y: y@, z: z@ }),
            x.ok() && y.ok() && z.ok() ==> r.ok(),
    {
        Vec3 { x, y, z }
    }

    /// The zero vector.
    pub fn zero() -> (r: Vec3)
        ensures
            r@ == (V3 { x: 0, y: 0, z: 0 }),
            r.ok(),
    {
        Vec3 { x: Fx::zero(), y: Fx::zero(), z: Fx::zero() }
    }

    /// The vector with every component 1.
    pub fn one() -> (r: Vec3)
        ensures
            r@ == (V3 { x: SCALE as int, y: SCALE as int, z: SCALE as int }),
            r.ok(),
    {
        Vec3 { x: Fx::one(), y: Fx::one(), z: Fx::one() }
    }

    /// Componentwise saturated sum.
    pub fn add(self, o: Vec3) -> (r: Vec3)
        requires
            self.ok(),
            o.ok(),
        ensures
            r@ == v_add(self@, o@),
            r.ok(),
    {
        Vec3 { x: self.x.add(o.x), y: self.y.add(o.y), z: self.z.add(o.z) }
    }

    /// Componentwise saturated difference.
    pub fn sub(self, o: Vec3) -> (r: Vec3)
        requires
            self.ok(),
            o.ok(),
        ensures
            r@ == v_sub(self@, o@),
            r.ok(),
    {
        Vec3 { x: self.x.sub(o.x), y: self.y.sub(o.y), z: self.z.sub(o.z) }
    }

    /// Componentwise saturated negation.
    pub fn neg(self) -> (r: Vec3)
        requires
            self.ok(),
        ensures
            r@ == v_neg(self@),
            r.ok(),
    {
        Vec3 { x: self.x.neg(), y: self.y.neg(), z: self.z.neg() }
    }

    /// Scaling by a fixed-point scalar.
    pub fn scale(self, t: Fx) -> (r: Vec3)
        requires
            self.ok(),
            t.ok(),
        ensures
            r@ == v_scale(t@, self@),
            r.ok(),
    {
        Vec3 { x: t.mul(self.x), y: t.mul(self.y), z: t.mul(self.z) }
    }

    /// Componentwise product (color attenuation).
    pub fn cmul(self, o: Vec3) -> (r: Vec3)
        requires
            self.ok(),
            o.ok(),
        ensures
            r@ == v_cmul(self@, o@),
            r.ok(),
    {
        Vec3 { x: self.x.mul(o.x), y: self.y.mul(o.y), z: self.z.mul(o.z) }
    }

    /// Division of every component by a fixed-point scalar.
    pub fn div_s(self, d: Fx) -> (r: Vec3)
        requires
            self.ok(),
            d.ok(),
        ensures
            r@ == v_div_s(self@, d@),
            r.ok(),
    {
        Vec3 { x: self.x.div(d), y: self.y.div(d), z: self.z.div(d) }
    }

    /// Dot product.
    pub fn dot(self, o: Vec3) -> (r: Fx)
        requires
            self.ok(),
            o.ok(),
        ensures
            r@ == v_dot(self@, o@),
            r.ok(),
    {
        self.x.mul(o.x).add(self.y.mul(o.y)).add(self.z.mul(o.z))
    }

    /// Squared length.
    pub fn length_squared(self) -> (r: Fx)
        requires
            self.ok(),
        ensures
            r@ == v_len_sq(self@),
            r.ok(),
    {
        self.dot(self)
    }

    /// Length.
    pub fn length(self) -> (r: Fx)
        requires
            self.ok(),
        ensures
            r@ == v_len(self@),
            r.ok(),
            r@ >= 0,
    {
        self.length_squared().sqrt()
    }

    /// Normalization (the zero vector stays the zero vector).
    pub fn normalize(self) -> (r: Vec3)
        requires
            self.ok(),
        ensures
            r@ == v_norm(self@),
            r.ok(),
    {
        self.div_s(self.length())
    }

    /// Refraction of `self` (normalized internally) through the surface
    /// with outward normal `n`, for the index ratio `ni_over_nt`; `None`
    /// when refraction is geometrically impossible (total internal
    /// reflection).
    pub fn refract(self, n: Vec3, ni_over_nt: Fx) -> (res: Option<Vec3>)
        requires
            self.ok(),
            n.ok(),
            ni_over_nt.ok(),
        ensures
            res matches Some(v) ==> refract_disc(self@, n@, ni_over_nt@) >= 0
                && v@ == refract_dir(self@, n@, ni_over_nt@) && v.ok(),
            res is None ==> refract_disc(self@, n@, ni_over_nt@) < 0,
    {
        let u = self.normalize();
        let cos = u.dot(n).neg();
        let one = Fx::one();
        let disc = one.sub(ni_over_nt.mul(ni_over_nt).mul(one.sub(cos.mul(cos))));
        if disc.raw < 0 {
            None
        } else {
            Some(u.scale(ni_over_nt).add(n.scale(ni_over_nt.mul(cos).sub(disc.sqrt()))))
        }
    }

    /// Reflection of `self` about the normal `n`.
    pub fn reflect(self, n: Vec3) -> (r: Vec3)
        requires
            self.ok(),
            n.ok(),
        ensures
            r@ == v_reflect(self@, n@),
            r.ok(),
    {
        let two = Fx::from_int(2);
        self.sub(n.scale(two.mul(self.dot(n))))
    }
}

/// Linear interpolation `(1 - t) a + t b`.
pub fn lerp(a: Vec3, b: Vec3, t: Fx) -> (r: Vec3)
    requires
        a.ok(),
        b.ok(),
        t.ok(),
    ensures
        r@ == v_lerp(a@, b@, t@),
        r.ok(),
{
    let one = Fx::one();
    a.scale(one.sub(t)).add(b.scale(t))
}

} // verus!

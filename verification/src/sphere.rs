//! The sphere surface and its exact intersection decision.

use vstd::prelude::*;
use crate::ConfigError;
use crate::fixed;
use crate::hittable::HitRecord;
use crate::hittable::Hittable;
use crate::material::Material;
use crate::material;
use crate::ray::Ray;
use crate::ray;
use crate::vec3::Vec3;
use crate::vec3;

verus! {

/// An implicit sphere with an owned material. A negative radius flips
/// the surface inward, which is deliberate (it builds hollow refractive
/// shells); only a radius of exactly zero is rejected, since it leaves
/// the normal undefined.
#[derive(Clone, Copy, PartialEq, Eq, Structural, Debug)]
pub struct Sphere {
    pub center: Vec3,
    pub radius: i64,
    pub material: Material,
}

/// A sphere is well formed when its radius is nonzero and its material is.
pub open spec fn spec_wf_sphere(s: Sphere) -> bool {
    s.radius != 0 && material::spec_wf_material(s.material)
}

/// The exact record for an accepted root: the point along the ray, the
/// outward normal (point - center) / radius, and that normal flipped
/// against the incoming direction when the ray came from inside.
pub open spec fn spec_hit_record(s: Sphere, r: Ray, t: int) -> HitRecord {
    let p = ray::spec_at(r, t);
    let outward = vec3::spec_div_scalar(vec3::spec_sub(p, s.center), s.radius as int);
    let ff = vec3::spec_dot(r.direction, outward) < 0;
    HitRecord {
        t: t as i64,
        p,
        normal: if ff {
            outward
        } else {
            vec3::spec_neg(outward)
        },
        material: s.material,
        frontface: ff,
    }
}

/// The exact intersection decision: solve the fixed-point quadratic
/// |origin + t d - center|^2 = radius^2 with a = d·d, b = 2 oc·d,
/// c = oc·oc - radius^2, and accept the smaller root strictly inside
/// (t_min, t_max), else the larger, else nothing. A negative
/// discriminant is no intersection (a zero discriminant is an exact
/// tangency, whose double root is accepted like any other), and a
/// degenerate direction whose squared length rounds to zero cannot be
/// solved and is no hit.
#[verifier::opaque]
pub open spec fn spec_hit(s: Sphere, r: Ray, t_min: int, t_max: int) -> Option<HitRecord> {
    let oc = vec3::spec_sub(r.origin, s.center);
    let a = vec3::spec_dot(r.direction, r.direction);
    let half = vec3::spec_dot(oc, r.direction);
    let b = fixed::add_spec(half, half);
    let c = fixed::sub_spec(
        vec3::spec_dot(oc, oc),
        fixed::mul_spec(s.radius as int, s.radius as int),
    );
    let disc = fixed::sub_spec(
        fixed::mul_spec(b, b),
        fixed::mul_spec(fixed::mul_spec(4 * (fixed::ONE as int), a), c),
    );
    if a == 0 || disc < 0 {
        None
    } else {
        let root = fixed::sqrt_spec(disc);
        let denom = fixed::add_spec(a, a);
        let t1 = fixed::div_spec(fixed::sub_spec(fixed::neg_spec(b), root), denom);
        let t2 = fixed::div_spec(fixed::add_spec(fixed::neg_spec(b), root), denom);
        if t_min < t1 && t1 < t_max {
            Some(spec_hit_record(s, r, t1))
        } else if t_min < t2 && t2 < t_max {
            Some(spec_hit_record(s, r, t2))
        } else {
            None
        }
    }
}

impl Sphere {
    /// Build a sphere; a radius of exactly zero is a configuration
    /// error, reported rather than silently producing degenerate
    /// geometry.
    pub fn new(center: Vec3, radius: i64, material: Material) -> (res: Result<Sphere, ConfigError>)
        ensures
            radius != 0 ==> res == Ok::<Sphere, ConfigError>(Sphere { center, radius, material }),
            radius == 0 ==> res == Err::<Sphere, ConfigError>(ConfigError::ZeroRadius),
    {
        if radius == 0 {
            Err(ConfigError::ZeroRadius)
        } else {
            Ok(Sphere { center, radius, material })
        }
    }

    /// Build the record for an accepted root, exact per `spec_hit_record`.
    fn hit_record_at(&self, r: &Ray, t: i64) -> (h: HitRecord)
        requires
            self.radius != 0,
        ensures
            h == spec_hit_record(*self, *r, t as int),
    {
        let p = r.point_at(t);
        let outward = p.sub(self.center).div_scalar(self.radius);
        let ff = r.direction.dot(outward) < 0;
        HitRecord {
            t,
            p,
            normal: if ff {
                outward
            } else {
                outward.neg()
            },
            material: self.material,
            frontface: ff,
        }
    }
}

impl Hittable for Sphere {
    open spec fn wf(&self) -> bool {
        spec_wf_sphere(*self)
    }

    open spec fn hit_spec(&self, r: Ray, t_min: int, t_max: int) -> Option<HitRecord> {
        spec_hit(*self, r, t_min, t_max)
    }

    /// Intersect a ray with this sphere inside (t_min, t_max), exact
    /// per `spec_hit`.
    fn hit(&self, r: &Ray, t_min: i64, t_max: i64) -> (res: Option<HitRecord>) {
        proof {
            reveal(spec_hit);
        }
        let oc = r.origin.sub(self.center);
        let a = r.direction.dot(r.direction);
        let half = oc.dot(r.direction);
        let b = fixed::sat_add(half, half);
        let c = fixed::sat_sub(oc.dot(oc), fixed::fmul(self.radius, self.radius));
        let four: i64 = 4 * fixed::ONE;
        let disc = fixed::sat_sub(fixed::fmul(b, b), fixed::fmul(fixed::fmul(four, a), c));
        if a == 0 || disc < 0 {
            return None;
        }
        proof {
            vec3::lemma_dot_self_nonneg(r.direction);
        }
        let root = fixed::fsqrt(disc);
        let denom = fixed::sat_add(a, a);
        let t1 = fixed::fdiv(fixed::sat_sub(fixed::sat_neg(b), root), denom);
        if t_min < t1 && t1 < t_max {
            return Some(self.hit_record_at(r, t1));
        }
        let t2 = fixed::fdiv(fixed::sat_add(fixed::sat_neg(b), root), denom);
        if t_min < t2 && t2 < t_max {
            return Some(self.hit_record_at(r, t2));
        }
        None
    }
}

/// An accepted hit lies strictly inside the queried interval and is the
/// record for its own root.
pub proof fn lemma_hit_in_range(s: Sphere, r: Ray, t_min: int, t_max: int, h: HitRecord)
    requires
        spec_hit(s, r, t_min, t_max) == Some(h),
    ensures
        t_min < h.t < t_max,
        h == spec_hit_record(s, r, h.t as int),
{
    reveal(spec_hit);
}

/// The reported normal is consistently oriented against the incoming
/// ray: its dot product with the ray direction is never positive, and
/// `frontface` records on which side the ray approached. This
/// orientation is what lets a dielectric pick the correct index ratio.
pub proof fn lemma_hit_normal_orientation(s: Sphere, r: Ray, t_min: int, t_max: int, h: HitRecord)
    requires
        spec_hit(s, r, t_min, t_max) == Some(h),
    ensures
        vec3::spec_dot(r.direction, h.normal) <= 0,
        h.frontface ==> vec3::spec_dot(r.direction, h.normal) < 0,
{
    lemma_hit_in_range(s, r, t_min, t_max, h);
    let p = ray::spec_at(r, h.t as int);
    let outward = vec3::spec_div_scalar(vec3::spec_sub(p, s.center), s.radius as int);
    if !h.frontface {
        vec3::lemma_dot_neg(r.direction, outward);
    }
}

/// Narrowing the upper bound cannot change an accepted hit: a hit found
/// inside (t_min, bound) is exactly the hit found inside any wider
/// (t_min, t_max).
pub proof fn lemma_hit_narrow_some(
    s: Sphere,
    r: Ray,
    t_min: int,
    bound: int,
    t_max: int,
    h: HitRecord,
)
    requires
        bound <= t_max,
        spec_hit(s, r, t_min, bound) == Some(h),
    ensures
        spec_hit(s, r, t_min, t_max) == Some(h),
{
    reveal(spec_hit);
    let oc = vec3::spec_sub(r.origin, s.center);
    let a = vec3::spec_dot(r.direction, r.direction);
    let half = vec3::spec_dot(oc, r.direction);
    let b = fixed::add_spec(half, half);
    let c = fixed::sub_spec(
        vec3::spec_dot(oc, oc),
        fixed::mul_spec(s.radius as int, s.radius as int),
    );
    let disc = fixed::sub_spec(
        fixed::mul_spec(b, b),
        fixed::mul_spec(fixed::mul_spec(4 * (fixed::ONE as int), a), c),
    );
    let root = fixed::sqrt_spec(disc);
    let denom = fixed::add_spec(a, a);
    let t1 = fixed::div_spec(fixed::sub_spec(fixed::neg_spec(b), root), denom);
    let t2 = fixed::div_spec(fixed::add_spec(fixed::neg_spec(b), root), denom);
    vec3::lemma_dot_self_nonneg(r.direction);
    fixed::lemma_sqrt_spec_bounds(disc);
    fixed::lemma_div_monotone(
        fixed::sub_spec(fixed::neg_spec(b), root),
        fixed::add_spec(fixed::neg_spec(b), root),
        denom,
    );
    assert(t1 <= t2);
}

/// If no hit lies inside (t_min, bound), any hit inside the wider
/// (t_min, t_max) lies at or beyond the bound.
pub proof fn lemma_hit_narrow_none(
    s: Sphere,
    r: Ray,
    t_min: int,
    bound: int,
    t_max: int,
    h: HitRecord,
)
    requires
        bound <= t_max,
        spec_hit(s, r, t_min, bound) is None,
        spec_hit(s, r, t_min, t_max) == Some(h),
    ensures
        bound <= h.t,
{
    reveal(spec_hit);
    let oc = vec3::spec_sub(r.origin, s.center);
    let a = vec3::spec_dot(r.direction, r.direction);
    let half = vec3::spec_dot(oc, r.direction);
    let b = fixed::add_spec(half, half);
    let c = fixed::sub_spec(
        vec3::spec_dot(oc, oc),
        fixed::mul_spec(s.radius as int, s.radius as int),
    );
    let disc = fixed::sub_spec(
        fixed::mul_spec(b, b),
        fixed::mul_spec(fixed::mul_spec(4 * (fixed::ONE as int), a), c),
    );
    let root = fixed::sqrt_spec(disc);
    let denom = fixed::add_spec(a, a);
    let t1 = fixed::div_spec(fixed::sub_spec(fixed::neg_spec(b), root), denom);
    let t2 = fixed::div_spec(fixed::add_spec(fixed::neg_spec(b), root), denom);
    vec3::lemma_dot_self_nonneg(r.direction);
    fixed::lemma_sqrt_spec_bounds(disc);
    fixed::lemma_div_monotone(
        fixed::sub_spec(fixed::neg_spec(b), root),
        fixed::add_spec(fixed::neg_spec(b), root),
        denom,
    );
    assert(t1 <= t2);
}

} // verus!

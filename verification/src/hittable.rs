//! The result of a ray/surface intersection.

use vstd::prelude::*;
use crate::ray::Ray;
use crate::vec3::Vec3;
use crate::material::Material;

verus! {

/// Something a ray can hit: each surface answers "does this ray hit me
/// within (t_min, t_max), and if so with what point, normal and
/// material?" — exactly as its own `hit_spec` describes.
pub trait Hittable {
    /// Whether this surface is well formed enough to query.
    spec fn wf(&self) -> bool;

    /// The exact intersection decision this surface implements.
    spec fn hit_spec(&self, r: Ray, t_min: int, t_max: int) -> Option<HitRecord>;

    /// Intersect a ray with this surface inside (t_min, t_max).
    fn hit(&self, r: &Ray, t_min: i64, t_max: i64) -> (res: Option<HitRecord>)
        requires
            self.wf(),
        ensures
            res == self.hit_spec(*r, t_min as int, t_max as int),
    ;
}

/// One ray/surface intersection: the ray parameter, the world-space
/// point, the unit normal oriented against the incoming ray, the hit
/// surface's material, and whether the ray approached from the outward
/// side. Created per intersection query and consumed by the integrator.
#[derive(Clone, Copy, PartialEq, Eq, Structural, Debug)]
pub struct HitRecord {
    pub t: i64,
    pub p: Vec3,
    pub normal: Vec3,
    pub material: Material,
    pub frontface: bool,
}

impl HitRecord {
    /// Build a hit record from its parts.
    pub fn new(t: i64, p: Vec3, normal: Vec3, material: Material, frontface: bool) -> (h:
        HitRecord)
        ensures
            h == (HitRecord { t, p, normal, material, frontface }),
    {
        HitRecord { t, p, normal, material, frontface }
    }
}

} // verus!

//! Parametric rays.

use vstd::prelude::*;
use crate::vec3::Vec3;
use crate::vec3;

verus! {

/// A ray: an origin point plus a direction vector. The direction need not
/// be normalized; callers normalize where they need a unit heading.
#[derive(Clone, Copy, PartialEq, Eq, Structural, Debug)]
pub struct Ray {
    pub origin: Vec3,
    pub direction: Vec3,
}

/// Exact value of the point a parameter `t` along a ray.
pub open spec fn spec_at(r: Ray, t: int) -> Vec3 {
    vec3::spec_add(r.origin, vec3::spec_scale(t, r.direction))
}

impl Ray {
    /// Build a ray from an origin and a direction.
    pub fn new(origin: Vec3, direction: Vec3) -> (r: Ray)
        ensures
            r == (Ray { origin, direction }),
    {
        Ray { origin, direction }
    }

    /// The point `origin + t * direction`.
    pub fn point_at(&self, t: i64) -> (p: Vec3)
        ensures
            p == spec_at(*self, t as int),
    {
        self.origin.add(self.direction.scale(t))
    }
}

} // verus!

//! Random sampling primitives.
//!
//! All randomness flows through an explicit `StdRng` handle threaded into
//! every call, so a render is repeatable from a fixed seed and pixels can
//! be traced in parallel with independent generators.

use vstd::prelude::*;
use crate::fixed;
use crate::vec3::Vec3;
use crate::vec3;

verus! {

/// rand's standard generator, declared so it can stand in signatures;
/// its state is opaque here.
#[verifier::external_type_specification]
#[verifier::external_body]
pub struct ExStdRng(rand::rngs::StdRng);

/// Relies on rand's `Rng::next_u64` for `StdRng`: draws the next 64
/// random bits. Nothing is promised of the value.
#[verifier::external_body]
fn next_u64(rng: &mut rand::rngs::StdRng) -> (r: u64) {
    rand::Rng::next_u64(rng)
}

/// Draw a fixed-point sample uniformly in [0, 1).
pub fn next_unit(rng: &mut rand::rngs::StdRng) -> (r: i64)
    ensures
        0 <= r < fixed::ONE,
{
    let bits = next_u64(rng);
    (bits % 65536u64) as i64
}

/// Draw a fixed-point sample uniformly in [-1, 1).
pub fn next_symmetric(rng: &mut rand::rngs::StdRng) -> (r: i64)
    ensures
        -fixed::ONE <= r < fixed::ONE,
{
    let bits = next_u64(rng);
    ((bits % 131072u64) as i64) - fixed::ONE
}

/// Draw a point uniformly inside the unit ball by rejection sampling:
/// draw in the enclosing cube and resample while the squared length is
/// not below one. The attempt count is bounded so the draw always
/// terminates; after the (astronomically unlikely) last rejection the
/// center point is returned, which also lies inside the ball.
pub fn random_in_unit_sphere(rng: &mut rand::rngs::StdRng) -> (r: Vec3)
    ensures
        vec3::spec_dot(r, r) < fixed::ONE,
{
    let mut tries: u32 = 64;
    while tries > 0
        decreases tries,
    {
        let v = Vec3 { x: next_symmetric(rng), y: next_symmetric(rng), z: next_symmetric(rng) };
        if v.length_sq() < fixed::ONE {
            return v;
        }
        tries = tries - 1;
    }
    Vec3 { x: 0, y: 0, z: 0 }
}

/// Draw a direction approximately uniform on the unit sphere's surface:
/// a rejection-sampled interior point, normalized. A draw whose length
/// rounds to zero is resampled; the bounded fallback is the z axis.
/// Every outcome is nonzero: normalizing a surviving draw keeps a
/// component alive, and the fallback is a unit axis.
pub fn random_unit_vector(rng: &mut rand::rngs::StdRng) -> (r: Vec3)
    ensures
        exists|v: Vec3| r == vec3::spec_unit(v),
        0 < vec3::spec_dot(r, r),
{
    let mut tries: u32 = 64;
    while tries > 0
        decreases tries,
    {
        let v = Vec3 { x: next_symmetric(rng), y: next_symmetric(rng), z: next_symmetric(rng) };
        let m = v.length_sq();
        if 0 < m && m < fixed::ONE {
            let u = v.unit();
            proof {
                assert(u == vec3::spec_unit(v));
                vec3::lemma_unit_of_short_nonzero(v);
            }
            return u;
        }
        tries = tries - 1;
    }
    let axis = Vec3 { x: 0, y: 0, z: fixed::ONE };
    proof {
        assert(vec3::spec_dot(axis, axis) == fixed::ONE as int);
        fixed::lemma_sqrt_spec_unique(fixed::ONE as int, fixed::ONE as int);
        assert(vec3::spec_unit(axis) == axis);
    }
    axis
}

/// Draw a point uniformly inside the unit disk of the lens plane by
/// rejection sampling in the enclosing square; the z component is zero.
pub fn random_in_unit_disk(rng: &mut rand::rngs::StdRng) -> (r: Vec3)
    ensures
        r.z == 0,
        vec3::spec_dot(r, r) < fixed::ONE,
{
    let mut tries: u32 = 64;
    while tries > 0
        decreases tries,
    {
        let v = Vec3 { x: next_symmetric(rng), y: next_symmetric(rng), z: 0 };
        if v.length_sq() < fixed::ONE {
            return v;
        }
        tries = tries - 1;
    }
    Vec3 { x: 0, y: 0, z: 0 }
}

} // verus!

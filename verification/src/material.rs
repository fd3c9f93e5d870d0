//! Materials: how a surface scatters an incoming ray.
//!
//! Each material answers "given an incoming ray and a hit, what outgoing
//! ray and color attenuation (if any) continues the path?". The random
//! draw a decision depends on is split out: a `scatter_with` function
//! takes the drawn sample as an argument and is exact, and `scatter`
//! draws fresh randomness and states what holds of every outcome.

use vstd::prelude::*;
use crate::color::Color;
use crate::color;
use crate::fixed;
use crate::hittable::HitRecord;
use crate::ray::Ray;
use crate::rng;
use crate::vec3::Vec3;
use crate::vec3;

verus! {

/// Exact value of mirror reflection: v - 2 (v·n) n.
pub open spec fn spec_reflect(v: Vec3, n: Vec3) -> Vec3 {
    let d = vec3::spec_dot(v, n);
    vec3::spec_sub(v, vec3::spec_scale(fixed::add_spec(d, d), n))
}

/// Exact value of refraction of the unit direction `uv` at the normal
/// `n` with index ratio `eta`: the parallel part is eta (uv + cos n),
/// the perpendicular part is -sqrt(1 - |par|^2) n, with the radicand
/// raised to zero where rounding drives it below zero.
pub open spec fn spec_refract(uv: Vec3, n: Vec3, eta: int) -> Vec3 {
    let cos = vec3::spec_dot(n, vec3::spec_neg(uv));
    let par = vec3::spec_scale(eta, vec3::spec_add(uv, vec3::spec_scale(cos, n)));
    let k = fixed::sub_spec(fixed::ONE as int, vec3::spec_dot(par, par));
    let k0 = if k < 0 {
        0int
    } else {
        k
    };
    vec3::spec_add(par, vec3::spec_neg(vec3::spec_scale(fixed::sqrt_spec(k0), n)))
}

/// Exact value of the fifth power, by repeated fixed multiplication.
pub open spec fn spec_pow5(x: int) -> int {
    let x2 = fixed::mul_spec(x, x);
    let x4 = fixed::mul_spec(x2, x2);
    fixed::mul_spec(x4, x)
}

/// Exact value of Schlick's reflectance approximation:
/// r0 + (1 - r0) (1 - cos)^5 with r0 = ((1 - eta) / (1 + eta))^2.
pub open spec fn spec_schlick(cos: int, eta: int) -> int {
    let q = fixed::div_spec(
        fixed::sub_spec(fixed::ONE as int, eta),
        fixed::add_spec(fixed::ONE as int, eta),
    );
    let r0 = fixed::mul_spec(q, q);
    fixed::add_spec(
        r0,
        fixed::mul_spec(
            fixed::sub_spec(fixed::ONE as int, r0),
            spec_pow5(fixed::sub_spec(fixed::ONE as int, cos)),
        ),
    )
}

/// Mirror reflection, exact per `spec_reflect`.
pub fn reflect(v: Vec3, n: Vec3) -> (r: Vec3)
    ensures
        r == spec_reflect(v, n),
{
    let d = v.dot(n);
    v.sub(n.scale(fixed::sat_add(d, d)))
}

/// Refraction, exact per `spec_refract`.
pub fn refract(uv: Vec3, n: Vec3, eta: i64) -> (r: Vec3)
    ensures
        r == spec_refract(uv, n, eta as int),
{
    let cos = n.dot(uv.neg());
    let par = uv.add(n.scale(cos)).scale(eta);
    let k = fixed::sat_sub(fixed::ONE, par.dot(par));
    let root = fixed::fsqrt(fixed::fmax(k, 0));
    par.add(n.scale(root).neg())
}

/// The fifth power, exact per `spec_pow5`.
pub fn pow5(x: i64) -> (r: i64)
    ensures
        r == spec_pow5(x as int),
{
    let x2 = fixed::fmul(x, x);
    let x4 = fixed::fmul(x2, x2);
    fixed::fmul(x4, x)
}

/// Schlick's reflectance approximation, exact per `spec_schlick`.
pub fn schlick(cosine: i64, eta: i64) -> (r: i64)
    requires
        0 <= eta,
    ensures
        r == spec_schlick(cosine as int, eta as int),
{
    let denom = fixed::sat_add(fixed::ONE, eta);
    let q = fixed::fdiv(fixed::sat_sub(fixed::ONE, eta), denom);
    let r0 = fixed::fmul(q, q);
    let p5 = pow5(fixed::sat_sub(fixed::ONE, cosine));
    fixed::sat_add(r0, fixed::fmul(fixed::sat_sub(fixed::ONE, r0), p5))
}

/// A diffuse surface: scatters toward the normal plus a random unit
/// vector, attenuating by its albedo; never absorbs.
#[derive(Clone, Copy, PartialEq, Eq, Structural, Debug)]
pub struct Lambertian {
    pub albedo: Color,
}

/// A reflective surface: mirrors the incoming direction, perturbed by
/// fuzz times a random interior point of the unit ball; absorbs when
/// the perturbed ray would not leave the surface.
#[derive(Clone, Copy, PartialEq, Eq, Structural, Debug)]
pub struct Metal {
    pub albedo: Color,
    pub fuzz: i64,
}

/// A refractive boundary with the given index of refraction; never
/// absorbs, attenuation is always white.
#[derive(Clone, Copy, PartialEq, Eq, Structural, Debug)]
pub struct Dielectric {
    pub ref_idx: i64,
}

/// The closed set of materials a surface can own.
#[derive(Clone, Copy, PartialEq, Eq, Structural, Debug)]
pub enum Material {
    Lambertian(Lambertian),
    Metal(Metal),
    Dielectric(Dielectric),
}

/// A dielectric's index must be positive so both index ratios are
/// defined; other materials are unconstrained.
pub open spec fn spec_wf_material(m: Material) -> bool {
    match m {
        Material::Dielectric(d) => d.ref_idx > 0,
        _ => true,
    }
}

impl Lambertian {
    /// Build a diffuse material from its albedo.
    pub fn new(albedo: Color) -> (m: Lambertian)
        ensures
            m.albedo == albedo,
    {
        Lambertian { albedo }
    }

    /// The scatter decision for a drawn bounce direction: the scattered
    /// ray leaves the hit point toward normal + bounce, attenuated by
    /// the albedo; diffuse surfaces never absorb.
    pub fn scatter_with(&self, hit: &HitRecord, bounce: Vec3) -> (r: (Ray, Color))
        ensures
            r.0.origin == hit.p,
            r.0.direction == vec3::spec_add(hit.normal, bounce),
            r.1 == self.albedo,
    {
        (Ray { origin: hit.p, direction: hit.normal.add(bounce) }, self.albedo)
    }

    /// Scatter with a fresh unit-vector draw; always produces a result,
    /// whose direction is the normal plus some normalized draw.
    pub fn scatter(&self, rng: &mut rand::rngs::StdRng, _r_in: &Ray, hit: &HitRecord) -> (r:
        Option<(Ray, Color)>)
        ensures
            r is Some,
            r matches Some(s) ==> s.0.origin == hit.p && s.1 == self.albedo,
            r matches Some(s) ==> exists|b: Vec3|
                0 < vec3::spec_dot(b, b) && (exists|w: Vec3| b == vec3::spec_unit(w))
                    && s.0.direction == vec3::spec_add(hit.normal, b),
    {
        let bounce = rng::random_unit_vector(rng);
        let result = self.scatter_with(hit, bounce);
        proof {
            assert(0 < vec3::spec_dot(bounce, bounce) && (exists|w: Vec3|
                bounce == vec3::spec_unit(w)) && result.0.direction == vec3::spec_add(
                hit.normal,
                bounce,
            ));
        }
        Some(result)
    }
}

/// Exact value of the metal scatter direction for a drawn fuzz sample.
pub open spec fn spec_metal_dir(r_in: Ray, normal: Vec3, fuzz: int, sample: Vec3) -> Vec3 {
    vec3::spec_add(
        spec_reflect(vec3::spec_unit(r_in.direction), normal),
        vec3::spec_scale(fuzz, sample),
    )
}

impl Metal {
    /// Build a reflective material; fuzz is clamped to at most one.
    pub fn new(albedo: Color, fuzz: i64) -> (m: Metal)
        ensures
            m.albedo == albedo,
            m.fuzz == if fuzz as int <= fixed::ONE as int {
                fuzz as int
            } else {
                fixed::ONE as int
            },
    {
        Metal { albedo, fuzz: fixed::fmin(fuzz, fixed::ONE) }
    }

    /// The scatter decision for a drawn fuzz sample: reflect the
    /// normalized incoming direction, perturb by fuzz * sample, and
    /// absorb unless the result genuinely leaves the surface.
    pub fn scatter_with(&self, r_in: &Ray, hit: &HitRecord, sample: Vec3) -> (r: Option<
        (Ray, Color)>)
        ensures
            ({
                let dir = spec_metal_dir(*r_in, hit.normal, self.fuzz as int, sample);
                if vec3::spec_dot(dir, hit.normal) > 0 {
                    r == Some((Ray { origin: hit.p, direction: dir }, self.albedo))
                } else {
                    r is None
                }
            }),
    {
        let reflected = reflect(r_in.direction.unit(), hit.normal);
        let dir = reflected.add(sample.scale(self.fuzz));
        if dir.dot(hit.normal) > 0 {
            Some((Ray { origin: hit.p, direction: dir }, self.albedo))
        } else {
            None
        }
    }

    /// Scatter with a fresh ball draw. Whatever the draw, a produced ray
    /// leaves the hit point away from the surface; with fuzz zero the
    /// draw is immaterial and the direction is the exact mirror
    /// reflection of the normalized incoming direction.
    pub fn scatter(&self, rng: &mut rand::rngs::StdRng, r_in: &Ray, hit: &HitRecord) -> (r:
        Option<(Ray, Color)>)
        ensures
            r matches Some(s) ==> s.0.origin == hit.p && s.1 == self.albedo
                && vec3::spec_dot(s.0.direction, hit.normal) > 0,
            r matches Some(s) ==> exists|b: Vec3|
                vec3::spec_dot(b, b) < fixed::ONE as int && s.0.direction == spec_metal_dir(
                    *r_in,
                    hit.normal,
                    self.fuzz as int,
                    b,
                ),
            r is None ==> exists|b: Vec3|
                vec3::spec_dot(b, b) < fixed::ONE as int && vec3::spec_dot(
                    spec_metal_dir(*r_in, hit.normal, self.fuzz as int, b),
                    hit.normal,
                ) <= 0,
            self.fuzz == 0 ==> ({
                let dir = spec_reflect(vec3::spec_unit(r_in.direction), hit.normal);
                if vec3::spec_dot(dir, hit.normal) > 0 {
                    r == Some((Ray { origin: hit.p, direction: dir }, self.albedo))
                } else {
                    r is None
                }
            }),
    {
        let sample = rng::random_in_unit_sphere(rng);
        let result = self.scatter_with(r_in, hit, sample);
        proof {
            if result is Some {
                assert(vec3::spec_dot(sample, sample) < fixed::ONE as int
                    && result->Some_0.0.direction == spec_metal_dir(
                    *r_in,
                    hit.normal,
                    self.fuzz as int,
                    sample,
                ));
            } else {
                assert(vec3::spec_dot(sample, sample) < fixed::ONE as int && vec3::spec_dot(
                    spec_metal_dir(*r_in, hit.normal, self.fuzz as int, sample),
                    hit.normal,
                ) <= 0);
            }
        }
        proof {
            if self.fuzz == 0 {
                let refl = spec_reflect(vec3::spec_unit(r_in.direction), hit.normal);
                assert(vec3::spec_scale(0, sample) == (Vec3 { x: 0i64, y: 0i64, z: 0i64 }));
                assert(spec_metal_dir(*r_in, hit.normal, 0, sample) == refl);
            }
        }
        result
    }
}

/// The index ratio at the boundary: entering from the outward side uses
/// 1/index, exiting uses the index itself.
pub open spec fn spec_eta(ref_idx: int, frontface: bool) -> int {
    if frontface {
        fixed::div_spec(fixed::ONE as int, ref_idx)
    } else {
        ref_idx
    }
}

/// The cosine the dielectric decision is based on: the normal against
/// the normalized incoming direction, capped at one.
pub open spec fn spec_dielectric_cos(r_in: Ray, hit: HitRecord) -> int {
    let cos0 = vec3::spec_dot(hit.normal, vec3::spec_neg(vec3::spec_unit(r_in.direction)));
    if cos0 <= fixed::ONE as int {
        cos0
    } else {
        fixed::ONE as int
    }
}

/// The sine derived from that cosine, with the radicand raised to zero
/// where rounding drives it below zero.
pub open spec fn spec_dielectric_sin(r_in: Ray, hit: HitRecord) -> int {
    let cos = spec_dielectric_cos(r_in, hit);
    let s2 = fixed::sub_spec(fixed::ONE as int, fixed::mul_spec(cos, cos));
    fixed::sqrt_spec(
        if s2 < 0 {
            0int
        } else {
            s2
        },
    )
}

/// Exact value of the dielectric scatter decision for a drawn
/// reflectance sample `u`: reflect under total internal reflection,
/// otherwise reflect when `u` falls below Schlick's reflectance, else
/// refract; the attenuation is always white.
pub open spec fn spec_dielectric_scatter(d: Dielectric, r_in: Ray, hit: HitRecord, u: int) -> Option<
    (Ray, Color)> {
    let eta = spec_eta(d.ref_idx as int, hit.frontface);
    let unit = vec3::spec_unit(r_in.direction);
    let cos = spec_dielectric_cos(r_in, hit);
    let sin = spec_dielectric_sin(r_in, hit);
    let white = Color { r: fixed::ONE, g: fixed::ONE, b: fixed::ONE };
    if fixed::mul_spec(eta, sin) > fixed::ONE as int {
        Some((Ray { origin: hit.p, direction: spec_reflect(unit, hit.normal) }, white))
    } else if u < spec_schlick(cos, eta) {
        Some((Ray { origin: hit.p, direction: spec_reflect(unit, hit.normal) }, white))
    } else {
        Some((Ray { origin: hit.p, direction: spec_refract(unit, hit.normal, eta) }, white))
    }
}

impl Dielectric {
    /// Build a refractive material; the index must be positive.
    pub fn new(ref_idx: i64) -> (m: Dielectric)
        requires
            0 < ref_idx,
        ensures
            m.ref_idx == ref_idx,
    {
        Dielectric { ref_idx }
    }

    /// The scatter decision for a drawn reflectance sample, exact per
    /// `spec_dielectric_scatter`.
    pub fn scatter_with(&self, r_in: &Ray, hit: &HitRecord, u: i64) -> (r: Option<(Ray, Color)>)
        requires
            0 < self.ref_idx,
        ensures
            r == spec_dielectric_scatter(*self, *r_in, *hit, u as int),
    {
        let attenuation = Color::white();
        let eta = if hit.frontface {
            fixed::fdiv(fixed::ONE, self.ref_idx)
        } else {
            self.ref_idx
        };
        let unit = r_in.direction.unit();
        let cos = fixed::fmin(hit.normal.dot(unit.neg()), fixed::ONE);
        let s2 = fixed::sat_sub(fixed::ONE, fixed::fmul(cos, cos));
        let sin = fixed::fsqrt(fixed::fmax(s2, 0));
        if fixed::fmul(eta, sin) > fixed::ONE {
            let reflected = reflect(unit, hit.normal);
            Some((Ray { origin: hit.p, direction: reflected }, attenuation))
        } else {
            let reflect_prob = schlick(cos, eta);
            if u < reflect_prob {
                let reflected = reflect(unit, hit.normal);
                Some((Ray { origin: hit.p, direction: reflected }, attenuation))
            } else {
                let refracted = refract(unit, hit.normal, eta);
                Some((Ray { origin: hit.p, direction: refracted }, attenuation))
            }
        }
    }

    /// Scatter with a fresh reflectance draw. Whatever the draw, a
    /// result is produced, it leaves the hit point, and its attenuation
    /// is white; the result is the exact decision for some sample in
    /// [0, 1).
    pub fn scatter(&self, rng: &mut rand::rngs::StdRng, r_in: &Ray, hit: &HitRecord) -> (r:
        Option<(Ray, Color)>)
        requires
            0 < self.ref_idx,
        ensures
            r is Some,
            r matches Some(s) ==> s.0.origin == hit.p
                && s.1 == (Color { r: fixed::ONE, g: fixed::ONE, b: fixed::ONE }),
            exists|u: int|
                0 <= u < fixed::ONE as int && r == spec_dielectric_scatter(*self, *r_in, *hit, u),
    {
        let u = rng::next_unit(rng);
        let r = self.scatter_with(r_in, hit, u);
        proof {
            let uu = u as int;
            assert(0 <= uu < fixed::ONE as int);
            assert(r == spec_dielectric_scatter(*self, *r_in, *hit, uu));
        }
        r
    }
}

/// The one attenuation a material can apply to a scattered path: its
/// albedo for diffuse and metallic surfaces, white for a dielectric.
pub open spec fn spec_attenuation_admits(m: Material, a: Color) -> bool {
    match m {
        Material::Lambertian(l) => a == l.albedo,
        Material::Metal(mt) => a == mt.albedo,
        Material::Dielectric(_) => a == (Color { r: fixed::ONE, g: fixed::ONE, b: fixed::ONE }),
    }
}

/// Whether a material's attenuation stays within [0, 1] in every
/// channel: a diffuse or metallic albedo inside the unit range; a
/// dielectric always attenuates with white.
pub open spec fn spec_albedo_in_unit(m: Material) -> bool {
    match m {
        Material::Lambertian(l) => color::spec_in_unit(l.albedo),
        Material::Metal(mt) => color::spec_in_unit(mt.albedo),
        Material::Dielectric(_) => true,
    }
}

impl Material {
    /// Dispatch the scatter decision to the hit surface's material.
    pub fn scatter(&self, rng: &mut rand::rngs::StdRng, r_in: &Ray, hit: &HitRecord) -> (r:
        Option<(Ray, Color)>)
        requires
            spec_wf_material(*self),
        ensures
            r matches Some(s) ==> s.0.origin == hit.p,
            !(self matches Material::Metal(_)) ==> r is Some,
            self matches Material::Lambertian(l) ==> (r matches Some(s) ==> s.1 == l.albedo),
            self matches Material::Metal(m) ==> (r matches Some(s) ==> s.1 == m.albedo
                && vec3::spec_dot(s.0.direction, hit.normal) > 0),
            self matches Material::Dielectric(_) ==> (r matches Some(s) ==> s.1 == (Color {
                r: fixed::ONE,
                g: fixed::ONE,
                b: fixed::ONE,
            })),
            r matches Some(s) ==> spec_attenuation_admits(*self, s.1),
            spec_albedo_in_unit(*self) ==> (r matches Some(s) ==> color::spec_in_unit(s.1)),
            self matches Material::Metal(m) ==> (m.fuzz == 0 ==> ({
                let dir = spec_reflect(vec3::spec_unit(r_in.direction), hit.normal);
                if vec3::spec_dot(dir, hit.normal) > 0 {
                    r == Some((Ray { origin: hit.p, direction: dir }, m.albedo))
                } else {
                    r is None
                }
            })),
            self matches Material::Dielectric(d) ==> exists|u: int|
                0 <= u < fixed::ONE as int && r == spec_dielectric_scatter(*d, *r_in, *hit, u),
    {
        match self {
            Material::Lambertian(l) => l.scatter(rng, r_in, hit),
            Material::Metal(m) => m.scatter(rng, r_in, hit),
            Material::Dielectric(d) => d.scatter(rng, r_in, hit),
        }
    }
}

/// The mirror law, at a normal where the fixed-point arithmetic is
/// exact: reflection at the z-axis unit normal reverses the incoming
/// vector's normal-aligned component and preserves its tangential
/// components exactly, for any vector away from the saturation bound.
/// (At a general unit normal the dot product rounds, so the law holds
/// only up to that rounding.)
pub proof fn lemma_reflect_mirror_axis(v: Vec3)
    requires
        -(i64::MAX as int) <= v.x as int,
        -(i64::MAX as int) <= v.y as int,
        -0x3fff_ffff_ffff_ffffint <= v.z as int <= 0x3fff_ffff_ffff_ffffint,
    ensures
        ({
            let r = spec_reflect(v, Vec3 { x: 0i64, y: 0i64, z: fixed::ONE });
            r.x == v.x && r.y == v.y && r.z as int == -(v.z as int)
        }),
{
    let n = Vec3 { x: 0i64, y: 0i64, z: fixed::ONE };
    fixed::lemma_mul_zero(v.x as int);
    fixed::lemma_mul_zero(v.y as int);
    fixed::lemma_mul_one(v.z as int);
    let d = vec3::spec_dot(v, n);
    assert(d == v.z as int);
    let d2 = fixed::add_spec(d, d);
    assert(d2 == 2 * (v.z as int));
    fixed::lemma_mul_zero(d2);
    fixed::lemma_mul_one(d2);
    assert(vec3::spec_scale(d2, n) == (Vec3 { x: 0i64, y: 0i64, z: d2 as i64 }));
}

/// With a matched index of refraction the boundary bends nothing that
/// clears Schlick's test: total internal reflection cannot occur, and
/// any reflectance sample at or above Schlick's value refracts. (A
/// sample below it still reflects, as the reflectance is positive away
/// from head-on incidence.)
pub proof fn lemma_matched_index_refracts(d: Dielectric, r_in: Ray, hit: HitRecord, u: int)
    requires
        d.ref_idx == fixed::ONE,
        spec_schlick(spec_dielectric_cos(r_in, hit), fixed::ONE as int) <= u,
    ensures
        spec_dielectric_scatter(d, r_in, hit, u) == Some(
            (
                Ray {
                    origin: hit.p,
                    direction: spec_refract(
                        vec3::spec_unit(r_in.direction),
                        hit.normal,
                        fixed::ONE as int,
                    ),
                },
                Color { r: fixed::ONE, g: fixed::ONE, b: fixed::ONE },
            ),
        ),
{
    let one = fixed::ONE as int;
    fixed::lemma_div_one(one);
    assert(spec_eta(one, true) == one);
    assert(spec_eta(one, false) == one);
    let cos = spec_dielectric_cos(r_in, hit);
    let sin = spec_dielectric_sin(r_in, hit);
    let c2 = fixed::mul_spec(cos, cos);
    assert(cos * cos >= 0) by (nonlinear_arith);
    assert(c2 >= 0);
    let s2 = fixed::sub_spec(one, c2);
    let k0 = if s2 < 0 {
        0int
    } else {
        s2
    };
    assert(k0 <= one);
    fixed::lemma_sqrt_spec_bounds(k0);
    assert(sin <= one) by (nonlinear_arith)
        requires
            sin == fixed::sqrt_spec(k0),
            sin * sin <= k0 * one,
            k0 <= one,
            one == 65536,
            0 <= sin,
    ;
    fixed::lemma_mul_one(sin);
    assert(fixed::mul_spec(one, sin) == sin);
}

} // verus!

//! The radiance integrator and the per-pixel sampling driver.

use vstd::prelude::*;
use crate::ConfigError;
use crate::camera::Camera;
use crate::color::Color;
use crate::color::Rgb8;
use crate::color;
use crate::fixed;
use crate::hittable::Hittable;
use crate::hittable_list::HittableList;
use crate::hittable_list;
use crate::material;
use crate::material::Dielectric;
use crate::material::Lambertian;
use crate::material::Material;
use crate::material::Metal;
use crate::ray::Ray;
use crate::rng;
use crate::sphere::Sphere;
use crate::sphere;
use crate::vec3::Vec3;
use crate::vec3;

verus! {

/// The path-length cap: at this depth the integrator contributes black,
/// bounding the work in scenes with near-unbounded bounce chains.
pub const DEPTH_CAP: u32 = 50;

/// The lower ray-parameter cutoff (about 0.001): a scattered ray may
/// not immediately re-intersect its own origin surface, which would
/// show as shadow acne.
pub const T_MIN_ACNE: i64 = 66;

/// The exact sky gradient a missing ray resolves to: white blended
/// toward sky blue by the normalized direction's vertical component,
/// remapped from [-1, 1] to [0, 1]. The blend parameter is clamped
/// into [0, 1]: normalizing a direction of tiny magnitude can overshoot
/// unit length, and the gradient must never leave its two endpoints.
pub open spec fn spec_sky(r: Ray) -> Color {
    let unit = vec3::spec_unit(r.direction);
    let t0 = fixed::mul_spec(32768, fixed::add_spec(unit.y as int, fixed::ONE as int));
    let t = if t0 < 0 {
        0int
    } else if t0 > fixed::ONE as int {
        fixed::ONE as int
    } else {
        t0
    };
    color::spec_cadd(
        color::spec_cscale(
            fixed::sub_spec(fixed::ONE as int, t),
            Color { r: fixed::ONE, g: fixed::ONE, b: fixed::ONE },
        ),
        color::spec_cscale(t, Color { r: 32768, g: 45875, b: fixed::ONE }),
    )
}

/// The sky gradient, exact per `spec_sky`; no randomness is involved.
pub fn sky_color(r: &Ray) -> (c: Color)
    ensures
        c == spec_sky(*r),
{
    let unit = r.direction.unit();
    let t0 = fixed::fmul(32768, fixed::sat_add(unit.y, fixed::ONE));
    let t = fixed::fmin(fixed::fmax(t0, 0), fixed::ONE);
    let white = Color::white();
    let blue = Color::new(32768, 45875, fixed::ONE);
    white.scale(fixed::sat_sub(fixed::ONE, t)).add(blue.scale(t))
}

/// The sky gradient stays between its endpoints: every channel lies in
/// [0, 1], so a missing ray can never contribute more than white.
pub proof fn lemma_sky_in_unit(r: Ray)
    ensures
        color::spec_in_unit(spec_sky(r)),
{
    let unit = vec3::spec_unit(r.direction);
    let t0 = fixed::mul_spec(32768, fixed::add_spec(unit.y as int, fixed::ONE as int));
    let t = if t0 < 0 {
        0int
    } else if t0 > fixed::ONE as int {
        fixed::ONE as int
    } else {
        t0
    };
    let s = fixed::sub_spec(fixed::ONE as int, t);
    let white = Color { r: fixed::ONE, g: fixed::ONE, b: fixed::ONE };
    let blue = Color { r: 32768i64, g: 45875i64, b: fixed::ONE };
    fixed::lemma_mul_unit_interval(white.r as int, s);
    fixed::lemma_mul_unit_interval(white.g as int, s);
    fixed::lemma_mul_unit_interval(white.b as int, s);
    fixed::lemma_mul_unit_interval(blue.r as int, t);
    fixed::lemma_mul_unit_interval(blue.g as int, t);
    fixed::lemma_mul_unit_interval(blue.b as int, t);
}

/// Whether every surface's material in the scene attenuates within
/// [0, 1] in every channel.
pub open spec fn spec_scene_albedos_in_unit(l: Seq<Sphere>) -> bool {
    forall|i: int|
        0 <= i < l.len() ==> #[trigger] material::spec_albedo_in_unit(l[i].material)
}

/// The recursive radiance function. At the depth cap it returns black.
/// Below the cap it intersects the scene just above the acne cutoff;
/// a miss resolves to the exact sky gradient, an absorbed scatter to
/// black, and a scattered ray to the attenuated radiance of the
/// continued path.
pub fn ray_color(r: &Ray, world: &HittableList, depth: u32, rng: &mut rand::rngs::StdRng) -> (c:
    Color)
    requires
        hittable_list::spec_wf_list(world.list@),
    ensures
        depth >= DEPTH_CAP ==> c == (Color { r: 0i64, g: 0i64, b: 0i64 }),
        depth < DEPTH_CAP && hittable_list::spec_scene_hit(
            world.list@,
            *r,
            T_MIN_ACNE as int,
            i64::MAX as int,
        ) is None ==> c == spec_sky(*r),
        depth < DEPTH_CAP ==> ((hittable_list::spec_scene_hit(
            world.list@,
            *r,
            T_MIN_ACNE as int,
            i64::MAX as int,
        )) matches Some(h) ==> (c == (Color { r: 0i64, g: 0i64, b: 0i64 }) || exists|a: Color, b:
            Color|
            material::spec_attenuation_admits(h.material, a) && (spec_scene_albedos_in_unit(
                world.list@,
            ) ==> color::spec_in_unit(b)) && c == color::spec_cmul(a, b))),
        spec_scene_albedos_in_unit(world.list@) ==> color::spec_in_unit(c),
    decreases DEPTH_CAP - depth,
{
    if depth >= DEPTH_CAP {
        return Color::black();
    }
    let hit = world.hit(r, T_MIN_ACNE, i64::MAX);
    match hit {
        Some(h) => {
            proof {
                let l = world.list@;
                hittable_list::lemma_scene_hit_member(
                    l,
                    *r,
                    T_MIN_ACNE as int,
                    i64::MAX as int,
                    h,
                );
                let i = choose|i: int|
                    0 <= i < l.len() && #[trigger] sphere::spec_hit(
                        l[i],
                        *r,
                        T_MIN_ACNE as int,
                        i64::MAX as int,
                    ) == Some(h);
                sphere::lemma_hit_in_range(l[i], *r, T_MIN_ACNE as int, i64::MAX as int, h);
                assert(h.material == l[i].material);
                assert(sphere::spec_wf_sphere(l[i]));
                if spec_scene_albedos_in_unit(l) {
                    assert(material::spec_albedo_in_unit(l[i].material));
                }
            }
            match h.material.scatter(rng, r, &h) {
                Some((scattered, attenuation)) => {
                    let bounced = ray_color(&scattered, world, depth + 1, rng);
                    let shaded = attenuation.mul(bounced);
                    proof {
                        if spec_scene_albedos_in_unit(world.list@) {
                            fixed::lemma_mul_unit_interval(attenuation.r as int, bounced.r as int);
                            fixed::lemma_mul_unit_interval(attenuation.g as int, bounced.g as int);
                            fixed::lemma_mul_unit_interval(attenuation.b as int, bounced.b as int);
                        }
                        assert(material::spec_attenuation_admits(h.material, attenuation)
                            && (spec_scene_albedos_in_unit(world.list@) ==> color::spec_in_unit(
                            bounced,
                        )) && shaded == color::spec_cmul(attenuation, bounced));
                    }
                    shaded
                },
                None => Color::black(),
            }
        },
        None => {
            proof {
                lemma_sky_in_unit(*r);
            }
            sky_color(r)
        },
    }
}

/// Gamma-correct a color and quantize it to an 8-bit pixel, exact per
/// `spec_gamma` and `spec_byte` on each channel.
pub fn color_to_rgb(c: &Color) -> (p: Rgb8)
    ensures
        p.r == color::spec_byte(color::spec_gamma(c.r as int)),
        p.g == color::spec_byte(color::spec_gamma(c.g as int)),
        p.b == color::spec_byte(color::spec_gamma(c.b as int)),
{
    let g = c.gamma_correct();
    proof {
        fixed::lemma_sqrt_spec_bounds(if c.r < 0 {
            0int
        } else {
            c.r as int
        });
        fixed::lemma_sqrt_spec_bounds(if c.g < 0 {
            0int
        } else {
            c.g as int
        });
        fixed::lemma_sqrt_spec_bounds(if c.b < 0 {
            0int
        } else {
            c.b as int
        });
    }
    g.to_rgb8()
}

/// Render the scene: per pixel, accumulate `samples` jittered radiance
/// samples, average exactly once after full summation, gamma-correct,
/// and quantize with clamping. The returned grid is row-major with row
/// 0 at the top of the image; ray generation follows a y-up, row-0-at-
/// bottom convention, so the vertical index is inverted. A sample
/// count of zero is a configuration error.
pub fn render(
    world: &HittableList,
    cam: &Camera,
    width: u32,
    height: u32,
    samples: u32,
    rng: &mut rand::rngs::StdRng,
) -> (res: Result<Vec<Rgb8>, ConfigError>)
    requires
        hittable_list::spec_wf_list(world.list@),
    ensures
        samples == 0 ==> res == Err::<Vec<Rgb8>, ConfigError>(ConfigError::ZeroSampleCount),
        samples != 0 ==> res is Ok,
        res matches Ok(v) ==> v@.len() == (width as int) * (height as int),
{
    if samples == 0 {
        return Err(ConfigError::ZeroSampleCount);
    }
    let mut out: Vec<Rgb8> = Vec::new();
    let mut row: u32 = 0;
    while row < height
        invariant
            row <= height,
            samples != 0,
            hittable_list::spec_wf_list(world.list@),
            out@.len() == (row as int) * (width as int),
        decreases height - row,
    {
        let j: u32 = height - 1 - row;
        let mut i: u32 = 0;
        while i < width
            invariant
                i <= width,
                row < height,
                samples != 0,
                hittable_list::spec_wf_list(world.list@),
                out@.len() == (row as int) * (width as int) + (i as int),
            decreases width - i,
        {
            let mut col = Color::black();
            let mut s: u32 = 0;
            while s < samples
                invariant
                    s <= samples,
                    i < width,
                    row < height,
                    hittable_list::spec_wf_list(world.list@),
                decreases samples - s,
            {
                let ju = rng::next_unit(rng);
                let jv = rng::next_unit(rng);
                let u = fixed::fdiv(
                    (i as i64) * fixed::ONE + ju,
                    (width as i64) * fixed::ONE,
                );
                let v = fixed::fdiv(
                    (j as i64) * fixed::ONE + jv,
                    (height as i64) * fixed::ONE,
                );
                let r = cam.get_ray(rng, u, v);
                let sample_color = ray_color(&r, world, 0, rng);
                col.add_assign(sample_color);
                s = s + 1;
            }
            col.div_assign((samples as i64) * fixed::ONE);
            out.push(color_to_rgb(&col));
            i = i + 1;
        }
        proof {
            assert((row as int + 1) * (width as int) == (row as int) * (width as int) + (
            width as int)) by (nonlinear_arith);
        }
        row = row + 1;
    }
    proof {
        assert(out@.len() == (width as int) * (height as int)) by (nonlinear_arith)
            requires
                out@.len() == (row as int) * (width as int),
                row == height,
        ;
    }
    Ok(out)
}

/// The fixed demonstration scene: a diffuse center sphere, a diffuse
/// ground sphere, a metal sphere, and a hollow glass sphere built from
/// a dielectric shell with a negative inner radius.
pub fn create_world() -> (w: HittableList)
    ensures
        hittable_list::spec_wf_list(w.list@),
        w.list@.len() == 5,
        w.list@[0] == (Sphere {
            center: Vec3 { x: 0i64, y: 0i64, z: -65536i64 },
            radius: 32768i64,
            material: Material::Lambertian(
                Lambertian { albedo: Color { r: 6554i64, g: 13107i64, b: 32768i64 } },
            ),
        }),
        w.list@[1] == (Sphere {
            center: Vec3 { x: 0i64, y: -6586368i64, z: -65536i64 },
            radius: 6553600i64,
            material: Material::Lambertian(
                Lambertian { albedo: Color { r: 52429i64, g: 52429i64, b: 0i64 } },
            ),
        }),
        w.list@[2] == (Sphere {
            center: Vec3 { x: 65536i64, y: 0i64, z: -65536i64 },
            radius: 32768i64,
            material: Material::Metal(
                Metal { albedo: Color { r: 52429i64, g: 39322i64, b: 13107i64 }, fuzz: 19661i64 },
            ),
        }),
        w.list@[3] == (Sphere {
            center: Vec3 { x: -65536i64, y: 0i64, z: -65536i64 },
            radius: 32768i64,
            material: Material::Dielectric(Dielectric { ref_idx: 98304i64 }),
        }),
        w.list@[4] == (Sphere {
            center: Vec3 { x: -65536i64, y: 0i64, z: -65536i64 },
            radius: -29491i64,
            material: Material::Dielectric(Dielectric { ref_idx: 98304i64 }),
        }),
{
    let mut list: Vec<Sphere> = Vec::new();
    list.push(
        Sphere {
            center: Vec3 { x: 0, y: 0, z: -65536 },
            radius: 32768,
            material: Material::Lambertian(
                Lambertian { albedo: Color { r: 6554, g: 13107, b: 32768 } },
            ),
        },
    );
    list.push(
        Sphere {
            center: Vec3 { x: 0, y: -6586368, z: -65536 },
            radius: 6553600,
            material: Material::Lambertian(
                Lambertian { albedo: Color { r: 52429, g: 52429, b: 0 } },
            ),
        },
    );
    list.push(
        Sphere {
            center: Vec3 { x: 65536, y: 0, z: -65536 },
            radius: 32768,
            material: Material::Metal(
                Metal { albedo: Color { r: 52429, g: 39322, b: 13107 }, fuzz: 19661 },
            ),
        },
    );
    list.push(
        Sphere {
            center: Vec3 { x: -65536, y: 0, z: -65536 },
            radius: 32768,
            material: Material::Dielectric(Dielectric { ref_idx: 98304 }),
        },
    );
    list.push(
        Sphere {
            center: Vec3 { x: -65536, y: 0, z: -65536 },
            radius: -29491,
            material: Material::Dielectric(Dielectric { ref_idx: 98304 }),
        },
    );
    let w = HittableList::new(list);
    proof {
        assert forall|i: int| 0 <= i < w.list@.len() implies sphere::spec_wf_sphere(
            #[trigger] w.list@[i],
        ) by {
        }
    }
    w
}

/// A sparser scene: a huge diffuse ground sphere and a glass, a
/// diffuse, and a polished metal sphere in a row.
pub fn create_random_scene() -> (w: HittableList)
    ensures
        hittable_list::spec_wf_list(w.list@),
        w.list@.len() == 4,
        w.list@[0] == (Sphere {
            center: Vec3 { x: 0i64, y: -6553600i64, z: 0i64 },
            radius: 65536000i64,
            material: Material::Lambertian(
                Lambertian { albedo: Color { r: 32768i64, g: 32768i64, b: 32768i64 } },
            ),
        }),
        w.list@[1] == (Sphere {
            center: Vec3 { x: 0i64, y: 65536i64, z: 0i64 },
            radius: 65536i64,
            material: Material::Dielectric(Dielectric { ref_idx: 98304i64 }),
        }),
        w.list@[2] == (Sphere {
            center: Vec3 { x: -262144i64, y: 65536i64, z: 0i64 },
            radius: 65536i64,
            material: Material::Lambertian(
                Lambertian { albedo: Color { r: 26214i64, g: 13107i64, b: 6554i64 } },
            ),
        }),
        w.list@[3] == (Sphere {
            center: Vec3 { x: 262144i64, y: 65536i64, z: 0i64 },
            radius: 65536i64,
            material: Material::Metal(
                Metal { albedo: Color { r: 45875i64, g: 39322i64, b: 32768i64 }, fuzz: 0i64 },
            ),
        }),
{
    let mut list: Vec<Sphere> = Vec::new();
    list.push(
        Sphere {
            center: Vec3 { x: 0, y: -6553600, z: 0 },
            radius: 65536000,
            material: Material::Lambertian(
                Lambertian { albedo: Color { r: 32768, g: 32768, b: 32768 } },
            ),
        },
    );
    list.push(
        Sphere {
            center: Vec3 { x: 0, y: 65536, z: 0 },
            radius: 65536,
            material: Material::Dielectric(Dielectric { ref_idx: 98304 }),
        },
    );
    list.push(
        Sphere {
            center: Vec3 { x: -262144, y: 65536, z: 0 },
            radius: 65536,
            material: Material::Lambertian(
                Lambertian { albedo: Color { r: 26214, g: 13107, b: 6554 } },
            ),
        },
    );
    list.push(
        Sphere {
            center: Vec3 { x: 262144, y: 65536, z: 0 },
            radius: 65536,
            material: Material::Metal(
                Metal { albedo: Color { r: 45875, g: 39322, b: 32768 }, fuzz: 0 },
            ),
        },
    );
    let w = HittableList::new(list);
    proof {
        assert forall|i: int| 0 <= i < w.list@.len() implies sphere::spec_wf_sphere(
            #[trigger] w.list@[i],
        ) by {
        }
    }
    w
}

} // verus!

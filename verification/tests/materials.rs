use rand::SeedableRng;
use rand::rngs::StdRng;
use raytrace::color::Color;
use raytrace::hittable::HitRecord;
use raytrace::material::Dielectric;
use raytrace::material::Lambertian;
use raytrace::material::Material;
use raytrace::material::Metal;
use raytrace::material::reflect;
use raytrace::ray::Ray;
use raytrace::vec3::Vec3;

const ONE: i64 = 65536;

fn hit_at_origin(normal: Vec3, frontface: bool) -> HitRecord {
    HitRecord::new(
        ONE,
        Vec3::new(0, 0, 0),
        normal,
        Material::Lambertian(Lambertian::new(Color::black())),
        frontface,
    )
}

#[test]
fn mirror_law_at_axis_normal() {
    // The normal-aligned component reverses, the tangential one is kept.
    let n = Vec3::new(0, 0, ONE);
    let v = Vec3::new(46341, 0, -46341);
    assert_eq!(reflect(v, n), Vec3::new(46341, 0, 46341));
    let w = Vec3::new(123, -456, -789);
    assert_eq!(reflect(w, n), Vec3::new(123, -456, 789));
}

#[test]
fn metal_zero_fuzz_reflects_exactly() {
    let metal = Metal::new(Color::new(52429, 39322, 13107), 0);
    let r_in = Ray::new(Vec3::new(0, 0, 2 * ONE), Vec3::new(ONE, 0, -ONE));
    let hit = hit_at_origin(Vec3::new(0, 0, ONE), true);
    let mut rng = StdRng::seed_from_u64(1);
    let (scattered, attenuation) = metal.scatter(&mut rng, &r_in, &hit).unwrap();
    assert_eq!(scattered.origin, Vec3::new(0, 0, 0));
    assert_eq!(scattered.direction, Vec3::new(46341, 0, 46341));
    assert_eq!(attenuation, Color::new(52429, 39322, 13107));
}

#[test]
fn metal_absorbs_when_ray_stays_inside() {
    let metal = Metal::new(Color::white(), 0);
    // Incoming along the normal from inside: the reflection points inward.
    let r_in = Ray::new(Vec3::new(0, 0, -ONE), Vec3::new(0, 0, ONE));
    let hit = hit_at_origin(Vec3::new(0, 0, ONE), true);
    let mut rng = StdRng::seed_from_u64(1);
    assert!(metal.scatter(&mut rng, &r_in, &hit).is_none());
}

#[test]
fn metal_fuzz_clamped_at_construction() {
    let m = Metal::new(Color::white(), 131072);
    assert_eq!(m.fuzz, ONE);
    let k = Metal::new(Color::white(), 1234);
    assert_eq!(k.fuzz, 1234);
}

#[test]
fn lambertian_never_absorbs() {
    let lam = Lambertian::new(Color::new(6554, 13107, 32768));
    let r_in = Ray::new(Vec3::new(0, 0, ONE), Vec3::new(0, 0, -ONE));
    let hit = hit_at_origin(Vec3::new(0, 0, ONE), true);
    let mut rng = StdRng::seed_from_u64(9);
    for _ in 0..32 {
        let (scattered, attenuation) = lam.scatter(&mut rng, &r_in, &hit).unwrap();
        assert_eq!(scattered.origin, Vec3::new(0, 0, 0));
        assert_eq!(attenuation, Color::new(6554, 13107, 32768));
        // The bounce draw is never the zero vector, so the scattered
        // direction never degenerates to the bare normal.
        assert_ne!(scattered.direction, hit.normal);
    }
}

#[test]
fn matched_index_refracts_head_on_unchanged() {
    // refractiveIndex == 1.0: head-on the direction passes through exactly.
    let d = Dielectric::new(ONE);
    let r_in = Ray::new(Vec3::new(0, 0, ONE), Vec3::new(0, 0, -ONE));
    let hit = hit_at_origin(Vec3::new(0, 0, ONE), true);
    let (scattered, attenuation) = d.scatter_with(&r_in, &hit, 0).unwrap();
    assert_eq!(scattered.direction, Vec3::new(0, 0, -ONE));
    assert_eq!(attenuation, Color::white());
    // Through the drawing entry point the decision is the same: head-on
    // the Schlick reflectance is zero, so every draw refracts.
    let mut rng = StdRng::seed_from_u64(3);
    for _ in 0..32 {
        let (s2, a2) = d.scatter(&mut rng, &r_in, &hit).unwrap();
        assert_eq!(s2.direction, Vec3::new(0, 0, -ONE));
        assert_eq!(a2, Color::white());
    }
}

#[test]
fn total_internal_reflection_reflects() {
    // Exiting a dense medium at 45 degrees: 1.5 * sin(45) > 1, so the
    // boundary must reflect whatever the reflectance draw.
    let d = Dielectric::new(98304);
    let r_in = Ray::new(Vec3::new(-ONE, 0, ONE), Vec3::new(ONE, 0, -ONE));
    let hit = hit_at_origin(Vec3::new(0, 0, ONE), false);
    for u in [0i64, 1000, 65535] {
        let (scattered, attenuation) = d.scatter_with(&r_in, &hit, u).unwrap();
        assert_eq!(scattered.direction, Vec3::new(46341, 0, 46341));
        assert_eq!(attenuation, Color::white());
    }
}

#[test]
fn dielectric_attenuation_always_white() {
    let d = Dielectric::new(98304);
    let r_in = Ray::new(Vec3::new(0, 0, ONE), Vec3::new(0, 0, -ONE));
    let hit = hit_at_origin(Vec3::new(0, 0, ONE), true);
    let mut rng = StdRng::seed_from_u64(11);
    for _ in 0..32 {
        let (_, attenuation) = d.scatter(&mut rng, &r_in, &hit).unwrap();
        assert_eq!(attenuation, Color::white());
    }
}

#[test]
fn material_dispatch_matches_variants() {
    let hit = hit_at_origin(Vec3::new(0, 0, ONE), true);
    let r_in = Ray::new(Vec3::new(0, 0, ONE), Vec3::new(ONE, 0, -ONE));
    let mut rng = StdRng::seed_from_u64(5);
    let m = Material::Metal(Metal::new(Color::new(52429, 39322, 13107), 0));
    let (s, a) = m.scatter(&mut rng, &r_in, &hit).unwrap();
    assert_eq!(s.direction, Vec3::new(46341, 0, 46341));
    assert_eq!(a, Color::new(52429, 39322, 13107));
    let l = Material::Lambertian(Lambertian::new(Color::new(1, 2, 3)));
    let (_, al) = l.scatter(&mut rng, &r_in, &hit).unwrap();
    assert_eq!(al, Color::new(1, 2, 3));
}

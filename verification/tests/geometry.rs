use raytrace::color::Color;
use raytrace::color::Rgb8;
use raytrace::fixed;
use raytrace::ray::Ray;
use raytrace::vec3::Vec3;

const ONE: i64 = 65536;

#[test]
fn fixed_mul_exact() {
    // 1.5 * 1.5 == 2.25
    assert_eq!(fixed::fmul(98304, 98304), 147456);
    assert_eq!(fixed::fmul(ONE, 12345), 12345);
    assert_eq!(fixed::fmul(0, 987654321), 0);
    assert_eq!(fixed::fmul(-98304, 98304), -147456);
}

#[test]
fn fixed_div_truncates_toward_zero() {
    assert_eq!(fixed::fdiv(ONE, 3 * ONE), 21845);
    assert_eq!(fixed::fdiv(-ONE, 3 * ONE), -21845);
    assert_eq!(fixed::fdiv(ONE, ONE), ONE);
}

#[test]
fn fixed_sqrt_exact() {
    assert_eq!(fixed::fsqrt(4 * ONE), 2 * ONE);
    assert_eq!(fixed::fsqrt(ONE), ONE);
    assert_eq!(fixed::fsqrt(0), 0);
    // sqrt(0.25) == 0.5
    assert_eq!(fixed::fsqrt(16384), 32768);
}

#[test]
fn fixed_saturates_instead_of_wrapping() {
    assert_eq!(fixed::sat_add(i64::MAX, 1), i64::MAX);
    assert_eq!(fixed::sat_sub(-i64::MAX, 2), -i64::MAX);
    assert_eq!(fixed::sat_neg(i64::MIN), i64::MAX);
}

#[test]
fn vec_dot_and_length() {
    let v = Vec3::new(ONE, 0, -ONE);
    assert_eq!(v.length_sq(), 2 * ONE);
    assert_eq!(v.length(), 92681);
    let u = v.unit();
    assert_eq!(u, Vec3::new(46341, 0, -46341));
}

#[test]
fn vec_cross_of_axes() {
    let x = Vec3::new(ONE, 0, 0);
    let y = Vec3::new(0, ONE, 0);
    assert_eq!(x.cross(y), Vec3::new(0, 0, ONE));
    assert_eq!(y.cross(x), Vec3::new(0, 0, -ONE));
}

#[test]
fn ray_point_at() {
    let r = Ray::new(Vec3::new(ONE, 0, 0), Vec3::new(0, ONE, -ONE));
    assert_eq!(r.point_at(2 * ONE), Vec3::new(ONE, 2 * ONE, -2 * ONE));
}

#[test]
fn color_componentwise_ops() {
    let a = Color::new(ONE, 32768, 0);
    let b = Color::new(32768, 32768, ONE);
    assert_eq!(a.add(b), Color::new(98304, ONE, ONE));
    assert_eq!(a.mul(b), Color::new(32768, 16384, 0));
    assert_eq!(a.scale(32768), Color::new(32768, 16384, 0));
    let mut acc = Color::black();
    acc.add_assign(a);
    acc.add_assign(b);
    assert_eq!(acc, Color::new(98304, ONE, ONE));
    acc.div_assign(2 * ONE);
    assert_eq!(acc, Color::new(49152, 32768, 32768));
}

#[test]
fn gamma_is_square_root() {
    // gamma(0.25) == 0.5, gamma(1) == 1, negative radiance is raised to 0
    let c = Color::new(16384, ONE, -7).gamma_correct();
    assert_eq!(c, Color::new(32768, ONE, 0));
    assert_eq!(Color::new(32768, 0, 0).gamma_correct().r, 46340);
}

#[test]
fn quantize_clamps_then_scales() {
    // full radiance -> 255, half -> 127, overflow clamps to 255, negative to 0
    let p = Color::new(ONE, 32768, 131072).to_rgb8();
    assert_eq!(p, Rgb8 { r: 255, g: 127, b: 255 });
    let q = Color::new(-5, 0, 1000).to_rgb8();
    assert_eq!(q.r, 0);
    assert_eq!(q.g, 0);
    assert_eq!(q.b, (1000 * 255999 / 65536000) as u8);
}

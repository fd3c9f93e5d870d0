//! The thin-lens camera.

use vstd::prelude::*;
use crate::ConfigError;
use crate::fixed;
use crate::ray::Ray;
use crate::rng;
use crate::vec3::Vec3;
use crate::vec3;

verus! {

/// A thin-lens camera, immutable once derived from the view
/// configuration: an orthonormal basis, the focus-plane rectangle, and
/// the lens radius. The field of view enters as the tangent of half
/// the vertical angle, which is positive exactly when the angle lies
/// strictly between 0 and 180 degrees.
#[derive(Clone, Copy, PartialEq, Eq, Structural, Debug)]
pub struct Camera {
    pub origin: Vec3,
    pub lower_left_corner: Vec3,
    pub horizontal: Vec3,
    pub vertical: Vec3,
    pub u: Vec3,
    pub v: Vec3,
    pub w: Vec3,
    pub lens_radius: i64,
}

/// The exact derived camera for a valid configuration.
pub open spec fn spec_camera(
    look_from: Vec3,
    look_at: Vec3,
    vup: Vec3,
    tan_half_vfov: int,
    aspect: int,
    aperture: int,
    focus_dist: int,
) -> Camera {
    let half_height = tan_half_vfov;
    let half_width = fixed::mul_spec(half_height, aspect);
    let w = vec3::spec_unit(vec3::spec_sub(look_from, look_at));
    let u = vec3::spec_unit(vec3::spec_cross(vup, w));
    let v = vec3::spec_cross(w, u);
    let hw_f = fixed::mul_spec(half_width, focus_dist);
    let hh_f = fixed::mul_spec(half_height, focus_dist);
    Camera {
        origin: look_from,
        lower_left_corner: vec3::spec_sub(
            vec3::spec_sub(
                vec3::spec_sub(look_from, vec3::spec_scale(hw_f, u)),
                vec3::spec_scale(hh_f, v),
            ),
            vec3::spec_scale(focus_dist, w),
        ),
        horizontal: vec3::spec_scale(fixed::add_spec(hw_f, hw_f), u),
        vertical: vec3::spec_scale(fixed::add_spec(hh_f, hh_f), v),
        u,
        v,
        w,
        lens_radius: fixed::div_spec(aperture, 2 * (fixed::ONE as int)) as i64,
    }
}

/// The exact construction decision: the first failed configuration
/// check names the error, and a valid configuration yields the derived
/// camera.
pub open spec fn spec_new_camera(
    look_from: Vec3,
    look_at: Vec3,
    vup: Vec3,
    tan_half_vfov: int,
    aspect: int,
    aperture: int,
    focus_dist: int,
) -> Result<Camera, ConfigError> {
    let gaze = vec3::spec_sub(look_from, look_at);
    let w = vec3::spec_unit(gaze);
    let cu = vec3::spec_cross(vup, w);
    if vec3::spec_length(gaze) == 0 {
        Err(ConfigError::DegenerateView)
    } else if vec3::spec_length(cu) == 0 {
        Err(ConfigError::UpParallelToView)
    } else if tan_half_vfov <= 0 {
        Err(ConfigError::NonPositiveFieldOfView)
    } else if aspect <= 0 {
        Err(ConfigError::NonPositiveAspect)
    } else if aperture < 0 {
        Err(ConfigError::NegativeAperture)
    } else if focus_dist <= 0 {
        Err(ConfigError::NonPositiveFocus)
    } else {
        Ok(spec_camera(look_from, look_at, vup, tan_half_vfov, aspect, aperture, focus_dist))
    }
}

/// The exact ray for film coordinates (s, t) and a drawn lens point:
/// the drawn point, scaled by the lens radius and expressed in the
/// camera's horizontal and vertical basis, jitters the origin, and the
/// ray aims at (s, t) on the focus-plane rectangle.
pub open spec fn spec_get_ray(c: Camera, s: int, t: int, disk: Vec3) -> Ray {
    let rd = vec3::spec_scale(c.lens_radius as int, disk);
    let offset = vec3::spec_add(
        vec3::spec_scale(rd.x as int, c.u),
        vec3::spec_scale(rd.y as int, c.v),
    );
    let target = vec3::spec_add(
        vec3::spec_add(c.lower_left_corner, vec3::spec_scale(s, c.horizontal)),
        vec3::spec_scale(t, c.vertical),
    );
    Ray {
        origin: vec3::spec_add(c.origin, offset),
        direction: vec3::spec_sub(vec3::spec_sub(target, c.origin), offset),
    }
}

impl Camera {
    /// Build a thin-lens camera, rejecting a degenerate configuration:
    /// coinciding view points, an up vector parallel to the gaze, a
    /// field of view outside (0, 180) degrees, a nonpositive aspect or
    /// focus distance, or a negative aperture (zero means pinhole).
    pub fn new(
        look_from: Vec3,
        look_at: Vec3,
        vup: Vec3,
        tan_half_vfov: i64,
        aspect: i64,
        aperture: i64,
        focus_dist: i64,
    ) -> (res: Result<Camera, ConfigError>)
        ensures
            res == spec_new_camera(
                look_from,
                look_at,
                vup,
                tan_half_vfov as int,
                aspect as int,
                aperture as int,
                focus_dist as int,
            ),
    {
        let gaze = look_from.sub(look_at);
        if gaze.length() == 0 {
            return Err(ConfigError::DegenerateView);
        }
        let w = gaze.unit();
        let cu = vup.cross(w);
        if cu.length() == 0 {
            return Err(ConfigError::UpParallelToView);
        }
        if tan_half_vfov <= 0 {
            return Err(ConfigError::NonPositiveFieldOfView);
        }
        if aspect <= 0 {
            return Err(ConfigError::NonPositiveAspect);
        }
        if aperture < 0 {
            return Err(ConfigError::NegativeAperture);
        }
        if focus_dist <= 0 {
            return Err(ConfigError::NonPositiveFocus);
        }
        let half_height = tan_half_vfov;
        let half_width = fixed::fmul(half_height, aspect);
        let u = cu.unit();
        let v = w.cross(u);
        let hw_f = fixed::fmul(half_width, focus_dist);
        let hh_f = fixed::fmul(half_height, focus_dist);
        let two_one: i64 = 2 * fixed::ONE;
        Ok(
            Camera {
                origin: look_from,
                lower_left_corner: look_from.sub(u.scale(hw_f)).sub(v.scale(hh_f)).sub(
                    w.scale(focus_dist),
                ),
                horizontal: u.scale(fixed::sat_add(hw_f, hw_f)),
                vertical: v.scale(fixed::sat_add(hh_f, hh_f)),
                u,
                v,
                w,
                lens_radius: fixed::fdiv(aperture, two_one),
            },
        )
    }

    /// The camera ray for film coordinates (s, t) and a given lens
    /// point, exact per `spec_get_ray`.
    pub fn get_ray_with(&self, s: i64, t: i64, disk: Vec3) -> (r: Ray)
        ensures
            r == spec_get_ray(*self, s as int, t as int, disk),
    {
        let rd = disk.scale(self.lens_radius);
        let offset = self.u.scale(rd.x).add(self.v.scale(rd.y));
        let target = self.lower_left_corner.add(self.horizontal.scale(s)).add(
            self.vertical.scale(t),
        );
        Ray { origin: self.origin.add(offset), direction: target.sub(self.origin).sub(offset) }
    }

    /// The camera ray for film coordinates (s, t), jittering the origin
    /// by a fresh lens draw. With a pinhole (lens radius zero) the draw
    /// is immaterial and the ray is the exact deterministic ray.
    pub fn get_ray(&self, rng: &mut rand::rngs::StdRng, s: i64, t: i64) -> (r: Ray)
        ensures
            exists|d: Vec3|
                d.z == 0 && vec3::spec_dot(d, d) < fixed::ONE && r == spec_get_ray(
                    *self,
                    s as int,
                    t as int,
                    d,
                ),
            self.lens_radius == 0 ==> r == spec_get_ray(
                *self,
                s as int,
                t as int,
                Vec3 { x: 0, y: 0, z: 0 },
            ),
    {
        let disk = rng::random_in_unit_disk(rng);
        let r = self.get_ray_with(s, t, disk);
        proof {
            assert(disk.z == 0 && vec3::spec_dot(disk, disk) < fixed::ONE && r == spec_get_ray(
                *self,
                s as int,
                t as int,
                disk,
            ));
            if self.lens_radius == 0 {
                fixed::lemma_mul_zero(disk.x as int);
                fixed::lemma_mul_zero(disk.y as int);
                fixed::lemma_mul_zero(disk.z as int);
                let zero = Vec3 { x: 0i64, y: 0i64, z: 0i64 };
                assert(vec3::spec_scale(0, disk) == zero);
                assert(vec3::spec_scale(0, zero) == zero);
                assert(spec_get_ray(*self, s as int, t as int, disk) == spec_get_ray(
                    *self,
                    s as int,
                    t as int,
                    zero,
                ));
            }
        }
        r
    }
}

} // verus!

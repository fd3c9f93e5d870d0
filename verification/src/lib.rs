//! A small path tracer over exact fixed-point arithmetic.
//!
//! Scalars are signed 16.16 fixed-point numbers carried in `i64`; every
//! arithmetic primitive has an exact contract, so the geometry and the
//! material model are verified end to end.

use vstd::prelude::*;

pub mod camera;
pub mod color;
pub mod fixed;
pub mod hittable;
pub mod hittable_list;
pub mod material;
pub mod ray;
pub mod render;
pub mod rng;
pub mod sphere;
pub mod vec3;

verus! {

/// A configuration error: rejected at construction and reported to the
/// caller, never silently producing degenerate geometry.
#[derive(Clone, Copy, PartialEq, Eq, Structural, Debug)]
pub enum ConfigError {
    /// The camera's look-from and look-at points coincide.
    DegenerateView,
    /// The camera's up vector is parallel to the viewing direction.
    UpParallelToView,
    /// The field of view does not open to a positive angle.
    NonPositiveFieldOfView,
    /// The aspect ratio is not positive.
    NonPositiveAspect,
    /// The lens aperture is negative.
    NegativeAperture,
    /// The focus distance is not positive.
    NonPositiveFocus,
    /// A sphere's radius is exactly zero, leaving its normal undefined.
    ZeroRadius,
    /// A render was requested with no samples per pixel.
    ZeroSampleCount,
}

} // verus!

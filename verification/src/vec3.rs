//! 3-component vectors and points over fixed-point scalars.

use vstd::prelude::*;
use crate::fixed;

verus! {

/// A vector (or point) in space; each component is a 16.16 fixed-point scalar.
#[derive(Clone, Copy, PartialEq, Eq, Structural, Debug)]
pub struct Vec3 {
    pub x: i64,
    pub y: i64,
    pub z: i64,
}

/// Exact value of componentwise vector addition.
pub open spec fn spec_add(a: Vec3, b: Vec3) -> Vec3 {
    Vec3 {
        x: fixed::add_spec(a.x as int, b.x as int) as i64,
        y: fixed::add_spec(a.y as int, b.y as int) as i64,
        z: fixed::add_spec(a.z as int, b.z as int) as i64,
    }
}

/// Exact value of componentwise vector subtraction.
pub open spec fn spec_sub(a: Vec3, b: Vec3) -> Vec3 {
    Vec3 {
        x: fixed::sub_spec(a.x as int, b.x as int) as i64,
        y: fixed::sub_spec(a.y as int, b.y as int) as i64,
        z: fixed::sub_spec(a.z as int, b.z as int) as i64,
    }
}

/// Exact value of componentwise negation.
pub open spec fn spec_neg(a: Vec3) -> Vec3 {
    Vec3 {
        x: fixed::neg_spec(a.x as int) as i64,
        y: fixed::neg_spec(a.y as int) as i64,
        z: fixed::neg_spec(a.z as int) as i64,
    }
}

/// Exact value of scaling by a fixed-point scalar.
pub open spec fn spec_scale(s: int, a: Vec3) -> Vec3 {
    Vec3 {
        x: fixed::mul_spec(s, a.x as int) as i64,
        y: fixed::mul_spec(s, a.y as int) as i64,
        z: fixed::mul_spec(s, a.z as int) as i64,
    }
}

/// Exact value of the dot product: the three component products are
/// accumulated left to right with saturating additions.
pub open spec fn spec_dot(a: Vec3, b: Vec3) -> int {
    fixed::add_spec(
        fixed::add_spec(
            fixed::mul_spec(a.x as int, b.x as int),
            fixed::mul_spec(a.y as int, b.y as int),
        ),
        fixed::mul_spec(a.z as int, b.z as int),
    )
}

/// Exact value of the cross product.
pub open spec fn spec_cross(a: Vec3, b: Vec3) -> Vec3 {
    Vec3 {
        x: fixed::sub_spec(
            fixed::mul_spec(a.y as int, b.z as int),
            fixed::mul_spec(a.z as int, b.y as int),
        ) as i64,
        y: fixed::sub_spec(
            fixed::mul_spec(a.z as int, b.x as int),
            fixed::mul_spec(a.x as int, b.z as int),
        ) as i64,
        z: fixed::sub_spec(
            fixed::mul_spec(a.x as int, b.y as int),
            fixed::mul_spec(a.y as int, b.x as int),
        ) as i64,
    }
}

/// Exact value of dividing each component by a nonzero scalar.
pub open spec fn spec_div_scalar(a: Vec3, s: int) -> Vec3 {
    Vec3 {
        x: fixed::div_spec(a.x as int, s) as i64,
        y: fixed::div_spec(a.y as int, s) as i64,
        z: fixed::div_spec(a.z as int, s) as i64,
    }
}

/// Exact value of the length: the square root of the self dot product.
pub open spec fn spec_length(a: Vec3) -> int {
    fixed::sqrt_spec(spec_dot(a, a))
}

/// Exact value of normalization: each component divided by the length;
/// a vector of length zero is mapped to the zero vector (a degenerate
/// direction carries no usable heading and is left for callers to reject).
pub open spec fn spec_unit(a: Vec3) -> Vec3 {
    let len = spec_length(a);
    if len == 0 {
        Vec3 { x: 0, y: 0, z: 0 }
    } else {
        Vec3 {
            x: fixed::div_spec(a.x as int, len) as i64,
            y: fixed::div_spec(a.y as int, len) as i64,
            z: fixed::div_spec(a.z as int, len) as i64,
        }
    }
}

/// The self dot product is never negative: each squared component
/// product is nonnegative and so is their saturating sum.
pub proof fn lemma_dot_self_nonneg(a: Vec3)
    ensures
        0 <= spec_dot(a, a),
{
    assert((a.x as int) * (a.x as int) >= 0) by (nonlinear_arith);
    assert((a.y as int) * (a.y as int) >= 0) by (nonlinear_arith);
    assert((a.z as int) * (a.z as int) >= 0) by (nonlinear_arith);
}

/// A vector's squared length is positive exactly when some component
/// has magnitude at least 256, the smallest whose square survives the
/// fixed-point rescaling.
pub proof fn lemma_dot_pos_iff_big_component(v: Vec3)
    ensures
        (0 < spec_dot(v, v)) <==> (256 <= vstd::math::abs(v.x as int) || 256 <= vstd::math::abs(
            v.y as int,
        ) || 256 <= vstd::math::abs(v.z as int)),
{
    assert((v.x as int) * (v.x as int) >= 0) by (nonlinear_arith);
    assert((v.y as int) * (v.y as int) >= 0) by (nonlinear_arith);
    assert((v.z as int) * (v.z as int) >= 0) by (nonlinear_arith);
    if 256 <= vstd::math::abs(v.x as int) {
        fixed::lemma_square_big(v.x as int);
    } else if 256 <= vstd::math::abs(v.y as int) {
        fixed::lemma_square_big(v.y as int);
    } else if 256 <= vstd::math::abs(v.z as int) {
        fixed::lemma_square_big(v.z as int);
    } else {
        fixed::lemma_square_small(v.x as int);
        fixed::lemma_square_small(v.y as int);
        fixed::lemma_square_small(v.z as int);
    }
}

/// Normalizing a vector whose squared length lies strictly between
/// zero and one yields a nonzero vector: the length is below one, so
/// dividing by it only grows the surviving component.
pub proof fn lemma_unit_of_short_nonzero(v: Vec3)
    requires
        0 < spec_dot(v, v) < fixed::ONE as int,
    ensures
        0 < spec_dot(spec_unit(v), spec_unit(v)),
{
    let m = spec_dot(v, v);
    let len = fixed::sqrt_spec(m);
    fixed::lemma_sqrt_spec_bounds(m);
    assert(256 <= len) by (nonlinear_arith)
        requires
            65536 <= m * 65536,
            m * 65536 < (len + 1) * (len + 1),
            0 <= len,
    ;
    assert(len <= 65535) by (nonlinear_arith)
        requires
            len * len <= m * 65536,
            m <= 65535,
            0 <= len,
    ;
    lemma_dot_pos_iff_big_component(v);
    let u = spec_unit(v);
    if 256 <= vstd::math::abs(v.x as int) {
        fixed::lemma_div_keeps_big(v.x as int, len);
    } else if 256 <= vstd::math::abs(v.y as int) {
        fixed::lemma_div_keeps_big(v.y as int, len);
    } else {
        fixed::lemma_div_keeps_big(v.z as int, len);
    }
    lemma_dot_pos_iff_big_component(u);
}

/// Negating the second operand negates the dot product exactly, for a
/// vector whose components stay inside the symmetric saturation range.
pub proof fn lemma_dot_neg(a: Vec3, b: Vec3)
    requires
        -(i64::MAX as int) <= b.x as int,
        -(i64::MAX as int) <= b.y as int,
        -(i64::MAX as int) <= b.z as int,
    ensures
        spec_dot(a, spec_neg(b)) == -spec_dot(a, b),
{
    fixed::lemma_mul_neg(a.x as int, b.x as int);
    fixed::lemma_mul_neg(a.y as int, b.y as int);
    fixed::lemma_mul_neg(a.z as int, b.z as int);
}

impl Vec3 {
    /// Build a vector from its components.
    pub fn new(x: i64, y: i64, z: i64) -> (r: Vec3)
        ensures
            r == (Vec3 { x, y, z }),
    {
        Vec3 { x, y, z }
    }

    /// The zero vector.
    pub fn zero() -> (r: Vec3)
        ensures
            r == (Vec3 { x: 0i64, y: 0i64, z: 0i64 }),
    {
        Vec3 { x: 0, y: 0, z: 0 }
    }

    /// Componentwise saturating addition.
    pub fn add(self, o: Vec3) -> (r: Vec3)
        ensures
            r == spec_add(self, o),
    {
        Vec3 {
            x: fixed::sat_add(self.x, o.x),
            y: fixed::sat_add(self.y, o.y),
            z: fixed::sat_add(self.z, o.z),
        }
    }

    /// Componentwise saturating subtraction.
    pub fn sub(self, o: Vec3) -> (r: Vec3)
        ensures
            r == spec_sub(self, o),
    {
        Vec3 {
            x: fixed::sat_sub(self.x, o.x),
            y: fixed::sat_sub(self.y, o.y),
            z: fixed::sat_sub(self.z, o.z),
        }
    }

    /// Componentwise negation.
    pub fn neg(self) -> (r: Vec3)
        ensures
            r == spec_neg(self),
    {
        Vec3 {
            x: fixed::sat_neg(self.x),
            y: fixed::sat_neg(self.y),
            z: fixed::sat_neg(self.z),
        }
    }

    /// Scale by a fixed-point scalar.
    pub fn scale(self, s: i64) -> (r: Vec3)
        ensures
            r == spec_scale(s as int, self),
    {
        Vec3 {
            x: fixed::fmul(s, self.x),
            y: fixed::fmul(s, self.y),
            z: fixed::fmul(s, self.z),
        }
    }

    /// Dot product.
    pub fn dot(self, o: Vec3) -> (r: i64)
        ensures
            r == spec_dot(self, o),
    {
        fixed::sat_add(
            fixed::sat_add(fixed::fmul(self.x, o.x), fixed::fmul(self.y, o.y)),
            fixed::fmul(self.z, o.z),
        )
    }

    /// Cross product.
    pub fn cross(self, o: Vec3) -> (r: Vec3)
        ensures
            r == spec_cross(self, o),
    {
        Vec3 {
            x: fixed::sat_sub(fixed::fmul(self.y, o.z), fixed::fmul(self.z, o.y)),
            y: fixed::sat_sub(fixed::fmul(self.z, o.x), fixed::fmul(self.x, o.z)),
            z: fixed::sat_sub(fixed::fmul(self.x, o.y), fixed::fmul(self.y, o.x)),
        }
    }

    /// Divide each component by a nonzero scalar.
    pub fn div_scalar(self, s: i64) -> (r: Vec3)
        requires
            s != 0,
        ensures
            r == spec_div_scalar(self, s as int),
    {
        Vec3 {
            x: fixed::fdiv(self.x, s),
            y: fixed::fdiv(self.y, s),
            z: fixed::fdiv(self.z, s),
        }
    }

    /// Squared length.
    pub fn length_sq(self) -> (r: i64)
        ensures
            r == spec_dot(self, self),
            0 <= r,
    {
        proof {
            lemma_dot_self_nonneg(self);
        }
        self.dot(self)
    }

    /// Length.
    pub fn length(self) -> (r: i64)
        ensures
            r == spec_length(self),
            0 <= r,
    {
        let d = self.length_sq();
        fixed::fsqrt(d)
    }

    /// Normalize to (approximately) unit length; the zero-length vector
    /// is mapped to the zero vector.
    pub fn unit(self) -> (r: Vec3)
        ensures
            r == spec_unit(self),
    {
        let len = self.length();
        if len == 0 {
            Vec3 { x: 0, y: 0, z: 0 }
        } else {
            Vec3 {
                x: fixed::fdiv(self.x, len),
                y: fixed::fdiv(self.y, len),
                z: fixed::fdiv(self.z, len),
            }
        }
    }
}

} // verus!

//! Linear radiance values and their 8-bit quantization.

use vstd::prelude::*;
use crate::fixed;

verus! {

/// A radiance value; each channel is a 16.16 fixed-point scalar,
/// conceptually in [0, 1] though not enforced as an invariant.
#[derive(Clone, Copy, PartialEq, Eq, Structural, Debug)]
pub struct Color {
    pub r: i64,
    pub g: i64,
    pub b: i64,
}

/// An 8-bit RGB pixel, ready for an external image encoder.
#[derive(Clone, Copy, PartialEq, Eq, Structural, Debug)]
pub struct Rgb8 {
    pub r: u8,
    pub g: u8,
    pub b: u8,
}

/// Whether every channel of a color lies in the unit radiance range
/// [0, 1].
pub open spec fn spec_in_unit(c: Color) -> bool {
    0 <= c.r <= fixed::ONE && 0 <= c.g <= fixed::ONE && 0 <= c.b <= fixed::ONE
}

/// Exact value of componentwise color addition.
pub open spec fn spec_cadd(a: Color, b: Color) -> Color {
    Color {
        r: fixed::add_spec(a.r as int, b.r as int) as i64,
        g: fixed::add_spec(a.g as int, b.g as int) as i64,
        b: fixed::add_spec(a.b as int, b.b as int) as i64,
    }
}

/// Exact value of componentwise color multiplication (attenuation).
pub open spec fn spec_cmul(a: Color, b: Color) -> Color {
    Color {
        r: fixed::mul_spec(a.r as int, b.r as int) as i64,
        g: fixed::mul_spec(a.g as int, b.g as int) as i64,
        b: fixed::mul_spec(a.b as int, b.b as int) as i64,
    }
}

/// Exact value of scaling every channel by a fixed-point scalar.
pub open spec fn spec_cscale(s: int, a: Color) -> Color {
    Color {
        r: fixed::mul_spec(s, a.r as int) as i64,
        g: fixed::mul_spec(s, a.g as int) as i64,
        b: fixed::mul_spec(s, a.b as int) as i64,
    }
}

/// Exact value of dividing every channel by a nonzero fixed-point scalar.
pub open spec fn spec_cdiv(a: Color, n: int) -> Color {
    Color {
        r: fixed::div_spec(a.r as int, n) as i64,
        g: fixed::div_spec(a.g as int, n) as i64,
        b: fixed::div_spec(a.b as int, n) as i64,
    }
}

/// Exact value of gamma correction of one channel: the fixed-point square
/// root, a channel below zero being first raised to zero.
pub open spec fn spec_gamma(c: int) -> int {
    if c < 0 {
        fixed::sqrt_spec(0)
    } else {
        fixed::sqrt_spec(c)
    }
}

/// Exact value of quantizing one channel to 8 bits: the channel is clamped
/// to [0, 1], scaled by 255.999 and rounded down.
pub open spec fn spec_byte(c: int) -> int {
    let cl = if c < 0 {
        0int
    } else if c > fixed::ONE as int {
        fixed::ONE as int
    } else {
        c
    };
    (cl * 255999) / 65536000
}

impl Color {
    /// Build a color from its channels.
    pub fn new(r: i64, g: i64, b: i64) -> (c: Color)
        ensures
            c == (Color { r, g, b }),
    {
        Color { r, g, b }
    }

    /// Pure black: zero radiance in every channel.
    pub fn black() -> (c: Color)
        ensures
            c == (Color { r: 0i64, g: 0i64, b: 0i64 }),
    {
        Color { r: 0, g: 0, b: 0 }
    }

    /// Pure white: full radiance in every channel.
    pub fn white() -> (c: Color)
        ensures
            c == (Color { r: fixed::ONE, g: fixed::ONE, b: fixed::ONE }),
    {
        Color { r: fixed::ONE, g: fixed::ONE, b: fixed::ONE }
    }

    /// Componentwise saturating addition.
    pub fn add(self, o: Color) -> (c: Color)
        ensures
            c == spec_cadd(self, o),
    {
        Color {
            r: fixed::sat_add(self.r, o.r),
            g: fixed::sat_add(self.g, o.g),
            b: fixed::sat_add(self.b, o.b),
        }
    }

    /// Componentwise multiplication: attenuate this radiance by `o`.
    pub fn mul(self, o: Color) -> (c: Color)
        ensures
            c == spec_cmul(self, o),
    {
        Color {
            r: fixed::fmul(self.r, o.r),
            g: fixed::fmul(self.g, o.g),
            b: fixed::fmul(self.b, o.b),
        }
    }

    /// Scale every channel by a fixed-point scalar.
    pub fn scale(self, s: i64) -> (c: Color)
        ensures
            c == spec_cscale(s as int, self),
    {
        Color {
            r: fixed::fmul(s, self.r),
            g: fixed::fmul(s, self.g),
            b: fixed::fmul(s, self.b),
        }
    }

    /// Accumulate another sample into this running sum.
    pub fn add_assign(&mut self, o: Color)
        ensures
            *final(self) == spec_cadd(*old(self), o),
    {
        self.r = fixed::sat_add(self.r, o.r);
        self.g = fixed::sat_add(self.g, o.g);
        self.b = fixed::sat_add(self.b, o.b);
    }

    /// Divide every channel by a nonzero fixed-point scalar, as when a
    /// sample sum is averaged once after full summation.
    pub fn div_assign(&mut self, n: i64)
        requires
            n != 0,
        ensures
            *final(self) == spec_cdiv(*old(self), n as int),
    {
        self.r = fixed::fdiv(self.r, n);
        self.g = fixed::fdiv(self.g, n);
        self.b = fixed::fdiv(self.b, n);
    }

    /// Gamma-correct every channel with a square root.
    pub fn gamma_correct(&self) -> (c: Color)
        ensures
            c.r == spec_gamma(self.r as int),
            c.g == spec_gamma(self.g as int),
            c.b == spec_gamma(self.b as int),
    {
        Color {
            r: fixed::fsqrt(fixed::fmax(self.r, 0)),
            g: fixed::fsqrt(fixed::fmax(self.g, 0)),
            b: fixed::fsqrt(fixed::fmax(self.b, 0)),
        }
    }

    /// Quantize this color to an 8-bit pixel, clamping each channel
    /// into [0, 1] first so that overflowing radiance cannot wrap.
    pub fn to_rgb8(&self) -> (p: Rgb8)
        ensures
            p.r == spec_byte(self.r as int),
            p.g == spec_byte(self.g as int),
            p.b == spec_byte(self.b as int),
    {
        Rgb8 { r: quantize(self.r), g: quantize(self.g), b: quantize(self.b) }
    }
}

/// Quantize one channel to 8 bits, exact per `spec_byte`.
fn quantize(c: i64) -> (b: u8)
    ensures
        b == spec_byte(c as int),
{
    let cl: u64 = if c < 0 {
        0u64
    } else if c > fixed::ONE {
        65536u64
    } else {
        c as u64
    };
    let q: u64 = (cl * 255999u64) / 65536000u64;
    proof {
        vstd::arithmetic::div_mod::lemma_div_is_ordered(
            cl as int * 255999,
            65536 as int * 255999,
            65536000,
        );
    }
    q as u8
}

} // verus!

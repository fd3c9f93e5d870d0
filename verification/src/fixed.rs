//! Signed 16.16 fixed-point scalars.
//!
//! A scalar is an `i64` holding `value * 65536`. Addition, subtraction,
//! multiplication, division and square root saturate at the symmetric
//! bound `i64::MAX`, so every operation is total and has an exact
//! mathematical description; no operation panics or overflows.

use vstd::prelude::*;

verus! {

/// The fixed-point representation of 1.
pub const ONE: i64 = 65536;

/// Saturate an unbounded integer into the symmetric `i64` range.
pub open spec fn clip(x: int) -> int {
    if x > i64::MAX as int {
        i64::MAX as int
    } else if x < -(i64::MAX as int) {
        -(i64::MAX as int)
    } else {
        x
    }
}

/// Quotient of `p` by `ONE`, rounded toward zero.
pub open spec fn half_down(p: int) -> int {
    if p >= 0 {
        p / (ONE as int)
    } else {
        -((-p) / (ONE as int))
    }
}

/// Exact value of saturating fixed-point addition.
pub open spec fn add_spec(a: int, b: int) -> int {
    clip(a + b)
}

/// Exact value of saturating fixed-point subtraction.
pub open spec fn sub_spec(a: int, b: int) -> int {
    clip(a - b)
}

/// Exact value of saturating fixed-point negation.
pub open spec fn neg_spec(a: int) -> int {
    clip(-a)
}

/// Exact value of fixed-point multiplication: the double-width product,
/// rescaled with rounding toward zero, then saturated.
pub open spec fn mul_spec(a: int, b: int) -> int {
    clip(half_down(a * b))
}

/// Exact value of fixed-point division (divisor nonzero): magnitudes are
/// divided after rescaling, rounding toward zero, then the sign is applied
/// and the result saturated.
pub open spec fn div_spec(a: int, b: int) -> int {
    let q = ((vstd::math::abs(a) as int) * (ONE as int)) / (vstd::math::abs(b) as int);
    if (a < 0) != (b < 0) {
        clip(-q)
    } else {
        clip(q)
    }
}

/// Floor of the square root of a natural number.
pub open spec fn sqrt_nat(n: nat) -> nat
    decreases n,
{
    if n == 0 {
        0
    } else {
        let r = sqrt_nat((n - 1) as nat);
        if (r + 1) * (r + 1) <= n {
            r + 1
        } else {
            r
        }
    }
}

/// Exact value of the fixed-point square root of a nonnegative scalar:
/// floor(sqrt(x * ONE)), which represents sqrt(x / ONE) * ONE rounded down.
pub open spec fn sqrt_spec(x: int) -> int {
    sqrt_nat((x * (ONE as int)) as nat) as int
}

proof fn lemma_sqrt_nat_bounds(n: nat)
    ensures
        sqrt_nat(n) * sqrt_nat(n) <= n,
        n < (sqrt_nat(n) + 1) * (sqrt_nat(n) + 1),
    decreases n,
{
    if n == 0 {
        let s = sqrt_nat(n);
        assert(s == 0);
        assert(n < (s + 1) * (s + 1)) by (nonlinear_arith)
            requires
                s == 0,
                n == 0,
        ;
    } else {
        lemma_sqrt_nat_bounds((n - 1) as nat);
        let r = sqrt_nat((n - 1) as nat);
        assert(r * r <= n - 1);
        assert(n - 1 < (r + 1) * (r + 1));
        if (r + 1) * (r + 1) <= n {
            assert(sqrt_nat(n) == r + 1);
            assert((r + 1 + 1) * (r + 1 + 1) > n) by (nonlinear_arith)
                requires
                    (n - 1) < (r + 1) * (r + 1),
                    (r + 1) * (r + 1) <= n,
            ;
        } else {
            assert(sqrt_nat(n) == r);
        }
    }
}

proof fn lemma_sqrt_nat_unique(n: nat, r: nat)
    requires
        r * r <= n,
        n < (r + 1) * (r + 1),
    ensures
        r == sqrt_nat(n),
{
    let s = sqrt_nat(n);
    lemma_sqrt_nat_bounds(n);
    if r < s {
        assert(s * s > n) by (nonlinear_arith)
            requires
                r < s,
                n < (r + 1) * (r + 1),
        ;
    }
    if s < r {
        assert(r * r > n) by (nonlinear_arith)
            requires
                s < r,
                n < (s + 1) * (s + 1),
        ;
    }
}

/// `sqrt_spec(x)` is the floor square root of `x * ONE`.
pub proof fn lemma_sqrt_spec_bounds(x: int)
    requires
        0 <= x,
    ensures
        0 <= sqrt_spec(x),
        sqrt_spec(x) * sqrt_spec(x) <= x * (ONE as int),
        x * (ONE as int) < (sqrt_spec(x) + 1) * (sqrt_spec(x) + 1),
{
    lemma_sqrt_nat_bounds((x * (ONE as int)) as nat);
}

/// The floor square root is the only value with its bracketing squares,
/// so a witness pins `sqrt_spec` down.
pub proof fn lemma_sqrt_spec_unique(x: int, r: int)
    requires
        0 <= x,
        0 <= r,
        r * r <= x * (ONE as int),
        x * (ONE as int) < (r + 1) * (r + 1),
    ensures
        r == sqrt_spec(x),
{
    lemma_sqrt_nat_unique((x * (ONE as int)) as nat, r as nat);
}

/// Multiplying by one is the identity on scalars in the saturation range.
pub proof fn lemma_mul_one(x: int)
    requires
        -(i64::MAX as int) <= x <= i64::MAX as int,
    ensures
        mul_spec(ONE as int, x) == x,
        mul_spec(x, ONE as int) == x,
{
    if x >= 0 {
        vstd::arithmetic::div_mod::lemma_div_multiples_vanish(x, ONE as int);
    } else {
        vstd::arithmetic::div_mod::lemma_div_multiples_vanish(-x, ONE as int);
    }
}

/// Multiplying by zero yields zero.
pub proof fn lemma_mul_zero(x: int)
    ensures
        mul_spec(0, x) == 0,
        mul_spec(x, 0) == 0,
{
    vstd::arithmetic::div_mod::lemma_div_of0(ONE as int);
}

/// A product with a factor in [0, 1] never exceeds the other factor:
/// multiplication by a sub-unit scalar only attenuates.
pub proof fn lemma_mul_unit_interval(a: int, b: int)
    requires
        0 <= a <= ONE as int,
        0 <= b,
    ensures
        0 <= mul_spec(a, b) <= b,
{
    assert(0 <= a * b <= (ONE as int) * b) by (nonlinear_arith)
        requires
            0 <= a <= ONE as int,
            0 <= b,
    ;
    vstd::arithmetic::div_mod::lemma_div_is_ordered(a * b, (ONE as int) * b, ONE as int);
    vstd::arithmetic::div_mod::lemma_div_multiples_vanish(b, ONE as int);
    vstd::arithmetic::div_mod::lemma_div_pos_is_pos(a * b, ONE as int);
}

/// The square of a scalar of magnitude at least 256 survives the
/// rescaling: its fixed product with itself is at least one.
pub proof fn lemma_square_big(c: int)
    requires
        256 <= c || c <= -256,
    ensures
        1 <= mul_spec(c, c),
{
    assert(65536 <= c * c) by (nonlinear_arith)
        requires
            256 <= c || c <= -256,
    ;
    vstd::arithmetic::div_mod::lemma_div_is_ordered(65536, c * c, 65536);
}

/// The square of a scalar of magnitude below 256 vanishes under the
/// rescaling.
pub proof fn lemma_square_small(c: int)
    requires
        -256 < c < 256,
    ensures
        mul_spec(c, c) == 0,
{
    assert(0 <= c * c < 65536) by (nonlinear_arith)
        requires
            -256 < c < 256,
    ;
    vstd::arithmetic::div_mod::lemma_basic_div(c * c, 65536);
}

/// Dividing a scalar of magnitude at least 256 by a positive scalar
/// below one (at most 65535) keeps its magnitude at least 256.
pub proof fn lemma_div_keeps_big(c: int, len: int)
    requires
        256 <= c || c <= -256,
        1 <= len <= 65535,
    ensures
        256 <= div_spec(c, len) || div_spec(c, len) <= -256,
{
    let mc = vstd::math::abs(c) as int;
    vstd::arithmetic::div_mod::lemma_div_multiples_vanish(256, len);
    vstd::arithmetic::div_mod::lemma_div_is_ordered(len * 256, mc * (ONE as int), len);
}

/// Negating one factor negates a fixed product exactly: rounding toward
/// zero and the symmetric saturation bound are both sign-symmetric.
pub proof fn lemma_mul_neg(a: int, b: int)
    requires
        -(i64::MAX as int) <= b <= i64::MAX as int,
    ensures
        mul_spec(a, -b) == -mul_spec(a, b),
{
    assert(a * (-b) == -(a * b)) by (nonlinear_arith);
}

/// Dividing by one is the identity on scalars in the saturation range.
pub proof fn lemma_div_one(x: int)
    requires
        -(i64::MAX as int) <= x <= i64::MAX as int,
    ensures
        div_spec(x, ONE as int) == x,
{
    vstd::arithmetic::div_mod::lemma_div_by_multiple(vstd::math::abs(x) as int, ONE as int);
}

/// Division by a positive scalar is monotone in the dividend.
pub proof fn lemma_div_monotone(a1: int, a2: int, b: int)
    requires
        a1 <= a2,
        0 < b,
    ensures
        div_spec(a1, b) <= div_spec(a2, b),
{
    let q1 = ((vstd::math::abs(a1) as int) * (ONE as int)) / (vstd::math::abs(b) as int);
    let q2 = ((vstd::math::abs(a2) as int) * (ONE as int)) / (vstd::math::abs(b) as int);
    vstd::arithmetic::div_mod::lemma_div_pos_is_pos((vstd::math::abs(a1) as int) * (ONE as int), vstd::math::abs(b) as int);
    vstd::arithmetic::div_mod::lemma_div_pos_is_pos((vstd::math::abs(a2) as int) * (ONE as int), vstd::math::abs(b) as int);
    if 0 <= a1 {
        vstd::arithmetic::div_mod::lemma_div_is_ordered(
            (vstd::math::abs(a1) as int) * (ONE as int),
            (vstd::math::abs(a2) as int) * (ONE as int),
            vstd::math::abs(b) as int,
        );
    } else if a2 < 0 {
        vstd::arithmetic::div_mod::lemma_div_is_ordered(
            (vstd::math::abs(a2) as int) * (ONE as int),
            (vstd::math::abs(a1) as int) * (ONE as int),
            vstd::math::abs(b) as int,
        );
    }
}

/// Saturating fixed-point addition.
pub fn sat_add(a: i64, b: i64) -> (r: i64)
    ensures
        r == add_spec(a as int, b as int),
{
    let s: i128 = a as i128 + b as i128;
    if s > 0x7fff_ffff_ffff_ffffi128 {
        0x7fff_ffff_ffff_ffffi64
    } else if s < -0x7fff_ffff_ffff_ffffi128 {
        -0x7fff_ffff_ffff_ffffi64
    } else {
        s as i64
    }
}

/// Saturating fixed-point subtraction.
pub fn sat_sub(a: i64, b: i64) -> (r: i64)
    ensures
        r == sub_spec(a as int, b as int),
{
    let s: i128 = a as i128 - b as i128;
    if s > 0x7fff_ffff_ffff_ffffi128 {
        0x7fff_ffff_ffff_ffffi64
    } else if s < -0x7fff_ffff_ffff_ffffi128 {
        -0x7fff_ffff_ffff_ffffi64
    } else {
        s as i64
    }
}

/// Saturating fixed-point negation.
pub fn sat_neg(a: i64) -> (r: i64)
    ensures
        r == neg_spec(a as int),
{
    if a == i64::MIN {
        i64::MAX
    } else {
        -a
    }
}

/// Fixed-point multiplication, exact per `mul_spec`.
pub fn fmul(a: i64, b: i64) -> (r: i64)
    ensures
        r == mul_spec(a as int, b as int),
{
    proof {
        assert((a as int) * (b as int) <= 0x4000_0000_0000_0000_0000_0000_0000_0000int
            && (a as int) * (b as int) >= -0x4000_0000_0000_0000_0000_0000_0000_0000int)
            by (nonlinear_arith)
            requires
                -0x8000_0000_0000_0000int <= a as int <= 0x7fff_ffff_ffff_ffffint,
                -0x8000_0000_0000_0000int <= b as int <= 0x7fff_ffff_ffff_ffffint,
        ;
    }
    let p: i128 = (a as i128) * (b as i128);
    let neg: bool = p < 0;
    let mag: u128 = if neg {
        (-p) as u128
    } else {
        p as u128
    };
    let q: u128 = mag / 65536u128;
    let c: u128 = if q > 0x7fff_ffff_ffff_ffffu128 {
        0x7fff_ffff_ffff_ffffu128
    } else {
        q
    };
    if neg {
        -(c as i64)
    } else {
        c as i64
    }
}

/// Fixed-point division, exact per `div_spec`; the divisor must be nonzero.
pub fn fdiv(a: i64, b: i64) -> (r: i64)
    requires
        b != 0,
    ensures
        r == div_spec(a as int, b as int),
{
    let neg: bool = (a < 0) != (b < 0);
    let ma: u64 = if a < 0 {
        ((-(a as i128)) as u64)
    } else {
        a as u64
    };
    let mb: u64 = if b < 0 {
        ((-(b as i128)) as u64)
    } else {
        b as u64
    };
    let num: u128 = (ma as u128) * 65536u128;
    let q: u128 = num / (mb as u128);
    let c: u128 = if q > 0x7fff_ffff_ffff_ffffu128 {
        0x7fff_ffff_ffff_ffffu128
    } else {
        q
    };
    if neg {
        -(c as i64)
    } else {
        c as i64
    }
}

/// Fixed-point square root of a nonnegative scalar, exact per `sqrt_spec`.
pub fn fsqrt(x: i64) -> (r: i64)
    requires
        0 <= x,
    ensures
        r == sqrt_spec(x as int),
        0 <= r,
{
    let n: u128 = (x as u128) * 65536u128;
    let root: u128 = isqrt_u128(n);
    proof {
        assert(root < 0x1_0000_0000_0000u128) by (nonlinear_arith)
            requires
                root * root <= n,
                n < 0x1_0000_0000_0000_0000_0000_0000u128,
        ;
        lemma_sqrt_nat_unique(n as nat, root as nat);
    }
    root as i64
}

/// Floor of the square root, by bisection on the answer.
fn isqrt_u128(n: u128) -> (r: u128)
    ensures
        r * r <= n,
        n < (r + 1) * (r + 1),
{
    if n == 0 {
        return 0;
    }
    let mut lo: u128 = 0;
    let mut hi: u128 = 0x1_0000_0000_0000_0000u128;
    proof {
        assert((0x1_0000_0000_0000_0000int * 0x1_0000_0000_0000_0000int)
            > u128::MAX as int);
    }
    while lo + 1 < hi
        invariant
            lo < hi,
            hi <= 0x1_0000_0000_0000_0000u128,
            lo * lo <= n,
            n < (hi as int) * (hi as int),
        decreases hi - lo,
    {
        let mid: u128 = lo + (hi - lo) / 2;
        proof {
            assert(mid * mid < 0x1_0000_0000_0000_0000u128 * 0x1_0000_0000_0000_0000u128)
                by (nonlinear_arith)
                requires
                    mid < 0x1_0000_0000_0000_0000u128,
            ;
        }
        if mid * mid <= n {
            lo = mid;
        } else {
            hi = mid;
        }
    }
    lo
}

/// The smaller of two scalars.
pub fn fmin(a: i64, b: i64) -> (r: i64)
    ensures
        r == if a as int <= b as int { a as int } else { b as int },
{
    if a <= b {
        a
    } else {
        b
    }
}

/// The larger of two scalars.
pub fn fmax(a: i64, b: i64) -> (r: i64)
    ensures
        r == if a as int >= b as int { a as int } else { b as int },
{
    if a >= b {
        a
    } else {
        b
    }
}

} // verus!

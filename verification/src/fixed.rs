//! Fixed-point scalar arithmetic.
//!
//! A value of one unit (one meter, one radian, one second, one percent of
//! battery) is encoded as `FP_ONE` = 1 000 000, so six decimal places are
//! carried exactly. Products and quotients round toward zero, as the hardware
//! division does. Integrated state saturates at `FP_SAT` instead of wrapping,
//! so every operation is total and every stored value stays inside the
//! envelope that the well-formedness predicates demand.

use vstd::arithmetic::div_mod::{
    lemma_div_pos_is_pos, lemma_fundamental_div_mod, lemma_multiply_divide_lt, lemma_small_mod,
};
use vstd::prelude::*;

verus! {

/// One whole unit in the fixed-point encoding.
pub const FP_ONE: i64 = 1000000;

/// Saturation envelope for every stored quantity (two million units).
pub const FP_SAT: i64 = 2000000000000;

/// The circle constants, truncated to the encoding's six decimal places.
pub const FP_PI: i64 = 3141592;

pub const FP_TWO_PI: i64 = 6283185;

pub const FP_HALF_PI: i64 = 1570796;

/// Truncating (round-toward-zero) division, for positive divisors.
pub open spec fn tdiv(a: int, b: int) -> int {
    if a >= 0 {
        a / b
    } else {
        -((-a) / b)
    }
}

/// Clamp `v` into `[lo, hi]`.
pub open spec fn clamp_s(v: int, lo: int, hi: int) -> int {
    if v < lo {
        lo
    } else if v > hi {
        hi
    } else {
        v
    }
}

/// Saturate `v` into the storage envelope.
pub open spec fn sat_s(v: int) -> int {
    clamp_s(v, -(FP_SAT as int), FP_SAT as int)
}

/// A value that fits the storage envelope.
pub open spec fn fp_ok(v: int) -> bool {
    -(FP_SAT as int) <= v <= FP_SAT as int
}

/// Fixed-point product: `a * b` rescaled, rounded toward zero, saturated.
pub open spec fn fp_mul_s(a: int, b: int) -> int {
    sat_s(tdiv(a * b, FP_ONE as int))
}

/// Fixed-point quotient `a / b` (both scaled), for positive `b`.
pub open spec fn fp_div_s(a: int, b: int) -> int {
    sat_s(tdiv(a * (FP_ONE as int), b))
}

/// Product of a scaled value and a plain integer count, saturated.
pub open spec fn fp_scale_s(a: int, k: int) -> int {
    sat_s(a * k)
}

/// Saturating sum of two scaled values.
pub open spec fn fp_add_s(a: int, b: int) -> int {
    sat_s(a + b)
}

/// Saturating difference of two scaled values.
pub open spec fn fp_sub_s(a: int, b: int) -> int {
    sat_s(a - b)
}

/// Reduce an angle into `[0, FP_TWO_PI)`; `%` on `int` is Euclidean, so the
/// result is nonnegative for any input.
pub open spec fn wrap_two_pi_s(a: int) -> int {
    a % (FP_TWO_PI as int)
}

/// Reduce an angle into `(-FP_PI, FP_PI]`-centred form: the shortest-path
/// representative of the same heading.
pub open spec fn wrap_pi_s(a: int) -> int {
    let m = wrap_two_pi_s(a);
    if m > FP_PI as int {
        m - FP_TWO_PI as int
    } else {
        m
    }
}

/// A scaled product of nonnegative factors is nonnegative.
pub proof fn lemma_fp_mul_nonneg(a: int, b: int)
    requires
        a >= 0,
        b >= 0,
    ensures
        fp_mul_s(a, b) >= 0,
{
    assert(a * b >= 0) by (nonlinear_arith)
        requires
            a >= 0,
            b >= 0,
    ;
    lemma_div_pos_is_pos(a * b, FP_ONE as int);
}

/// A nonnegative quotient stays below `c` when the dividend is below `b * c`.
pub proof fn lemma_tdiv_below(a: int, b: int, c: int)
    requires
        0 <= a,
        0 < b,
        a < b * c,
    ensures
        0 <= tdiv(a, b) < c,
{
    lemma_div_pos_is_pos(a, b);
    lemma_multiply_divide_lt(a, b, c);
}

/// Exact product of two 64-bit values, carried out in 128 bits.
pub fn mul128(a: i64, b: i64) -> (r: i128)
    ensures
        r as int == a as int * b as int,
        i128::MIN < r,
{
    proof {
        assert(a as int * b as int <= 0x8000_0000_0000_0000 * 0x8000_0000_0000_0000
            && a as int * b as int >= -(0x8000_0000_0000_0000 * 0x8000_0000_0000_0000))
            by (nonlinear_arith)
            requires
                -0x8000_0000_0000_0000 <= a as int <= 0x7fff_ffff_ffff_ffff,
                -0x8000_0000_0000_0000 <= b as int <= 0x7fff_ffff_ffff_ffff,
        ;
    }
    (a as i128) * (b as i128)
}

/// Truncating division on 128-bit values, for a positive divisor.
pub fn tdiv128(a: i128, b: i128) -> (r: i128)
    requires
        b > 0,
        a > i128::MIN,
    ensures
        r as int == tdiv(a as int, b as int),
{
    if a >= 0 {
        let q: u128 = (a as u128) / (b as u128);
        proof {
            assert(q <= a);
        }
        q as i128
    } else {
        let q: u128 = ((-a) as u128) / (b as u128);
        proof {
            assert(q <= -a);
        }
        -(q as i128)
    }
}

/// Clamp a 128-bit intermediate into a 64-bit range.
pub fn clamp128(v: i128, lo: i64, hi: i64) -> (r: i64)
    requires
        lo <= hi,
    ensures
        r as int == clamp_s(v as int, lo as int, hi as int),
{
    if v < lo as i128 {
        lo
    } else if v > hi as i128 {
        hi
    } else {
        v as i64
    }
}

/// Saturate a 128-bit intermediate into the storage envelope.
pub fn sat128(v: i128) -> (r: i64)
    ensures
        r as int == sat_s(v as int),
        fp_ok(r as int),
{
    clamp128(v, -FP_SAT, FP_SAT)
}

/// Clamp a 64-bit value into `[lo, hi]`.
pub fn clamp64(v: i64, lo: i64, hi: i64) -> (r: i64)
    requires
        lo <= hi,
    ensures
        r as int == clamp_s(v as int, lo as int, hi as int),
{
    if v < lo {
        lo
    } else if v > hi {
        hi
    } else {
        v
    }
}

/// Fixed-point product.
pub fn fp_mul(a: i64, b: i64) -> (r: i64)
    ensures
        r as int == fp_mul_s(a as int, b as int),
        fp_ok(r as int),
{
    let p = mul128(a, b);
    let q = tdiv128(p, FP_ONE as i128);
    sat128(q)
}

/// Fixed-point quotient, for a positive divisor.
pub fn fp_div(a: i64, b: i64) -> (r: i64)
    requires
        b > 0,
    ensures
        r as int == fp_div_s(a as int, b as int),
        fp_ok(r as int),
{
    let p = mul128(a, FP_ONE);
    let q = tdiv128(p, b as i128);
    sat128(q)
}

/// Product of a scaled value and a plain integer count.
pub fn fp_scale(a: i64, k: i64) -> (r: i64)
    ensures
        r as int == fp_scale_s(a as int, k as int),
        fp_ok(r as int),
{
    sat128(mul128(a, k))
}

/// Saturating sum.
pub fn fp_add(a: i64, b: i64) -> (r: i64)
    ensures
        r as int == fp_add_s(a as int, b as int),
        fp_ok(r as int),
{
    sat128(a as i128 + b as i128)
}

/// Saturating difference.
pub fn fp_sub(a: i64, b: i64) -> (r: i64)
    ensures
        r as int == fp_sub_s(a as int, b as int),
        fp_ok(r as int),
{
    sat128(a as i128 - b as i128)
}

/// Truncating division of a 64-bit value by a positive 64-bit divisor.
pub fn tdiv64(a: i64, b: i64) -> (r: i64)
    requires
        b > 0,
        a > i64::MIN,
    ensures
        r as int == tdiv(a as int, b as int),
{
    if a >= 0 {
        let q: u64 = (a as u64) / (b as u64);
        proof {
            assert(q <= a);
        }
        q as i64
    } else {
        let q: u64 = ((-a) as u64) / (b as u64);
        proof {
            assert(q <= -a);
        }
        -(q as i64)
    }
}

/// Reduce an angle into `[0, FP_TWO_PI)`.
pub fn wrap_two_pi(a: i64) -> (r: i64)
    requires
        a > i64::MIN,
    ensures
        r as int == wrap_two_pi_s(a as int),
        0 <= r < FP_TWO_PI,
{
    let m: i64 = FP_TWO_PI;
    if a >= 0 {
        let r: u64 = (a as u64) % (m as u64);
        r as i64
    } else {
        let r: u64 = ((-a) as u64) % (m as u64);
        if r == 0 {
            proof {
                lemma_neg_mod_zero(a as int, m as int);
            }
            0
        } else {
            proof {
                lemma_neg_mod_nonzero(a as int, m as int);
            }
            m - (r as i64)
        }
    }
}

/// For `a < 0` divisible by `m`, the Euclidean remainder is zero.
proof fn lemma_neg_mod_zero(a: int, m: int)
    requires
        a < 0,
        m > 0,
        (-a) % m == 0,
    ensures
        a % m == 0,
{
    let q = (-a) / m;
    lemma_fundamental_div_mod(-a, m);
    assert(-a == q * m);
    assert(a == (-q) * m) by (nonlinear_arith)
        requires
            -a == q * m,
    ;
    assert((-q) * m % m == 0) by (nonlinear_arith)
        requires
            m > 0,
    ;
}

/// For `a < 0` not divisible by `m`, the Euclidean remainder complements
/// the remainder of the magnitude.
proof fn lemma_neg_mod_nonzero(a: int, m: int)
    requires
        a < 0,
        m > 0,
        (-a) % m != 0,
    ensures
        a % m == m - (-a) % m,
{
    let q = (-a) / m;
    let r = (-a) % m;
    lemma_fundamental_div_mod(-a, m);
    assert(-a == q * m + r);
    assert(0 < r < m);
    assert(a == (-q - 1) * m + (m - r)) by (nonlinear_arith)
        requires
            -a == q * m + r,
    ;
    assert(((-q - 1) * m + (m - r)) % m == (m - r) % m) by (nonlinear_arith)
        requires
            m > 0,
            0 < m - r < m,
    ;
    lemma_small_mod((m - r) as nat, m as nat);
}

/// Taylor evaluation of the sine on a quarter wave, `0 <= t <= FP_HALF_PI + 1`
/// micro-radians. Every term folds its factorial denominator into a single
/// truncating division, and the result is clamped into `[-FP_ONE, FP_ONE]`.
pub open spec fn sin_quarter_s(t: int) -> int {
    let t2 = sat_s(tdiv(t * t, FP_ONE as int));
    let c3 = sat_s(tdiv(t * t2, 6000000));
    let c5 = sat_s(tdiv(c3 * t2, 20000000));
    let c7 = sat_s(tdiv(c5 * t2, 42000000));
    let c9 = sat_s(tdiv(c7 * t2, 72000000));
    clamp_s(t - c3 + c5 - c7 + c9, -(FP_ONE as int), FP_ONE as int)
}

/// The sine of any angle, by reduction into `[0, FP_TWO_PI)` and reflection
/// onto the quarter wave.
pub open spec fn sin_fp_s(a: int) -> int {
    let m = wrap_two_pi_s(a);
    if m < FP_HALF_PI as int {
        sin_quarter_s(m)
    } else if m < FP_PI as int {
        sin_quarter_s(FP_PI as int - m)
    } else if m < FP_PI as int + FP_HALF_PI as int {
        -sin_quarter_s(m - FP_PI as int)
    } else {
        -sin_quarter_s(FP_TWO_PI as int - m)
    }
}

/// The cosine, as the sine advanced by a quarter turn.
pub open spec fn cos_fp_s(a: int) -> int {
    sin_fp_s(a + FP_HALF_PI as int)
}

fn sin_quarter(t: i64) -> (r: i64)
    requires
        0 <= t <= FP_HALF_PI + 1,
    ensures
        r as int == sin_quarter_s(t as int),
        -FP_ONE <= r <= FP_ONE,
{
    let t2 = sat128(tdiv128(mul128(t, t), FP_ONE as i128));
    let c3 = sat128(tdiv128(mul128(t, t2), 6000000));
    let c5 = sat128(tdiv128(mul128(c3, t2), 20000000));
    let c7 = sat128(tdiv128(mul128(c5, t2), 42000000));
    let c9 = sat128(tdiv128(mul128(c7, t2), 72000000));
    let s: i128 = t as i128 - c3 as i128 + c5 as i128 - c7 as i128 + c9 as i128;
    clamp128(s, -FP_ONE, FP_ONE)
}

/// The sine of a fixed-point angle.
pub fn sin_fp(a: i64) -> (r: i64)
    requires
        a > i64::MIN,
    ensures
        r as int == sin_fp_s(a as int),
        -FP_ONE <= r <= FP_ONE,
{
    let m = wrap_two_pi(a);
    if m < FP_HALF_PI {
        sin_quarter(m)
    } else if m < FP_PI {
        sin_quarter(FP_PI - m)
    } else if m < FP_PI + FP_HALF_PI {
        -sin_quarter(m - FP_PI)
    } else {
        -sin_quarter(FP_TWO_PI - m)
    }
}

/// The cosine of a fixed-point angle.
pub fn cos_fp(a: i64) -> (r: i64)
    requires
        i64::MIN < a <= i64::MAX - FP_HALF_PI,
    ensures
        r as int == cos_fp_s(a as int),
        -FP_ONE <= r <= FP_ONE,
{
    sin_fp(a + FP_HALF_PI)
}

/// `r` is the integer ceiling of the square root of `n`.
pub open spec fn is_ceil_sqrt(n: int, r: int) -> bool {
    if n <= 0 {
        r == 0
    } else {
        r >= 1 && (r - 1) * (r - 1) < n <= r * r
    }
}

/// The integer ceiling of the square root, named as a definite value through
/// its characterisation.
pub open spec fn ceil_sqrt_s(n: int) -> int {
    choose|r: int| is_ceil_sqrt(n, r)
}

/// The characterisation has at most one solution.
pub proof fn lemma_ceil_sqrt_unique(n: int, a: int, b: int)
    requires
        is_ceil_sqrt(n, a),
        is_ceil_sqrt(n, b),
    ensures
        a == b,
{
    if n > 0 {
        assert(a < b ==> a * a <= (b - 1) * (b - 1)) by (nonlinear_arith)
            requires
                a >= 1,
                b >= 1,
        ;
        assert(b < a ==> b * b <= (a - 1) * (a - 1)) by (nonlinear_arith)
            requires
                a >= 1,
                b >= 1,
        ;
    }
}

/// The integer ceiling of the square root, for counts up to the largest
/// swarm the engine accepts.
pub fn ceil_sqrt(n: usize) -> (r: usize)
    requires
        n <= 4000000000,
    ensures
        is_ceil_sqrt(n as int, r as int),
        r as int == ceil_sqrt_s(n as int),
        r <= 65536,
{
    let n64: u64 = n as u64;
    let mut r: u64 = 0;
    let mut rr: u64 = 0;
    while rr < n64
        invariant
            n64 == n,
            n <= 4000000000,
            r <= 65536,
            rr == r * r,
            r == 0 || (r - 1) * (r - 1) < n64,
        decreases 65537 - r,
    {
        proof {
            assert(r < 65536) by (nonlinear_arith)
                requires
                    rr == r * r,
                    rr < n64,
                    n64 <= 4000000000,
            ;
        }
        r = r + 1;
        proof {
            assert(r * r <= 65536 * 65536) by (nonlinear_arith)
                requires
                    r <= 65536,
            ;
        }
        rr = r * r;
    }
    proof {
        if n > 0 {
            assert(r >= 1);
        }
        assert(is_ceil_sqrt(n as int, r as int));
        lemma_ceil_sqrt_unique(n as int, r as int, ceil_sqrt_s(n as int));
    }
    r as usize
}

/// Reduce an angle into the shortest-path form `(-FP_PI, FP_PI]`.
pub fn wrap_pi(a: i64) -> (r: i64)
    requires
        a > i64::MIN,
    ensures
        r as int == wrap_pi_s(a as int),
        -FP_PI <= r <= FP_PI,
{
    let m = wrap_two_pi(a);
    if m > FP_PI {
        m - FP_TWO_PI
    } else {
        m
    }
}

} // verus!

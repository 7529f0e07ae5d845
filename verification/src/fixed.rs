//! Fixed-point scalar arithmetic: all geometry in this crate is carried in
//! signed 16.16 fixed point (one unit is `FP` = 65536).

use vstd::prelude::*;
use vstd::arithmetic::div_mod::{lemma_div_is_ordered, lemma_div_multiples_vanish, lemma_div_pos_is_pos};

verus! {

/// One whole unit in 16.16 fixed point.
pub const FP: i64 = 65536;

/// Magnitude of a mathematical integer.
pub open spec fn abs_i(a: int) -> int {
    if a < 0 { -a } else { a }
}

/// Truncating (round-toward-zero) division, the meaning of every scalar
/// division performed by the pipeline.
pub open spec fn dt(a: int, b: int) -> int {
    if (a >= 0) == (b >= 0) {
        abs_i(a) / abs_i(b)
    } else {
        -(abs_i(a) / abs_i(b))
    }
}

/// The quotient of a truncating division is no larger in magnitude than
/// `m` whenever the dividend is within `m * b`.
pub proof fn lemma_dt_bound(a: int, b: int, m: int)
    requires
        b > 0,
        m >= 0,
        abs_i(a) <= m * b,
    ensures
        abs_i(dt(a, b)) <= m,
{
    let q = abs_i(a) / abs_i(b);
    assert(abs_i(b) == b);
    lemma_div_is_ordered(abs_i(a), m * b, b);
    assert(m * b == b * m) by (nonlinear_arith);
    lemma_div_multiples_vanish(m, b);
    assert((b * m) / b == m);
    assert(abs_i(a) / b <= m);
    lemma_div_pos_is_pos(abs_i(a), b);
    assert(abs_i(dt(a, b)) == q);
}

/// Truncating division on machine words, as `/` rounds in Rust.
pub fn div_trunc(a: i64, b: i64) -> (r: i64)
    requires
        b != 0,
        !(a == i64::MIN && b == -1),
    ensures
        r == dt(a as int, b as int),
{
    proof {
        lemma_div_pos_is_pos(abs_i(a as int), abs_i(b as int));
        if b == 1 || b == -1 {
            assert(abs_i(a as int) / 1int == abs_i(a as int));
        } else {
            assert(abs_i(b as int) >= 2);
            lemma_div_is_ordered_by_denom(abs_i(a as int), 2, abs_i(b as int));
            lemma_div_by_two_small(abs_i(a as int));
        }
    }
    match a.checked_div(b) {
        Some(q) => q,
        None => 0,
    }
}

proof fn lemma_div_by_two_small(a: int)
    requires
        0 <= a <= 0x8000_0000_0000_0000,
    ensures
        a / 2 <= 0x4000_0000_0000_0000,
{
    lemma_div_is_ordered(a, 0x8000_0000_0000_0000, 2);
}

proof fn lemma_div_is_ordered_by_denom(x: int, y1: int, y2: int)
    requires
        0 <= x,
        1 <= y1 <= y2,
    ensures
        x / y2 <= x / y1,
{
    vstd::arithmetic::div_mod::lemma_div_is_ordered_by_denominator(x, y1, y2);
}

/// A product of bounded factors is bounded by the product of the bounds.
pub proof fn lemma_mul_bound(a: int, b: int, ba: int, bb: int)
    requires
        abs_i(a) <= ba,
        abs_i(b) <= bb,
    ensures
        abs_i(a * b) <= ba * bb,
        -(ba * bb) <= a * b <= ba * bb,
{
    assert(abs_i(a * b) <= ba * bb && -(ba * bb) <= a * b <= ba * bb) by (nonlinear_arith)
        requires abs_i(a) <= ba, abs_i(b) <= bb;
}

/// Truncating division on 128-bit words, as `/` rounds in Rust.
pub fn div_trunc128(a: i128, b: i128) -> (r: i128)
    requires
        b != 0,
        !(a == i128::MIN && b == -1),
    ensures
        r == dt(a as int, b as int),
{
    proof {
        lemma_div_pos_is_pos(abs_i(a as int), abs_i(b as int));
        if b == 1 || b == -1 {
            assert(abs_i(a as int) / 1int == abs_i(a as int));
        } else {
            assert(abs_i(b as int) >= 2);
            lemma_div_is_ordered_by_denom(abs_i(a as int), 2, abs_i(b as int));
            lemma_div_is_ordered(
                abs_i(a as int),
                0x8000_0000_0000_0000_0000_0000_0000_0000,
                2,
            );
        }
    }
    match a.checked_div(b) {
        Some(q) => q,
        None => 0,
    }
}

/// Euclidean remainder on machine words: the result is always in `[0, m)`.
pub fn rem_euclid(a: i64, m: i64) -> (r: i64)
    requires
        m > 0,
    ensures
        r == (a as int) % (m as int),
        0 <= r < m,
{
    match a.checked_rem_euclid(m) {
        Some(r) => r,
        None => 0,
    }
}

/// Pi in 16.16 fixed point.
pub const PI_FP: i64 = 205887;

/// Two pi in 16.16 fixed point.
pub const TWO_PI_FP: i64 = 411774;

/// Pi / 2 in 16.16 fixed point.
pub const HALF_PI_FP: i64 = 102943;

/// Fixed-point product: `a * b` rescaled back into 16.16.
pub open spec fn fp_mul_spec(a: int, b: int) -> int {
    dt(a * b, FP as int)
}

/// Fixed-point multiply; the product must fit a machine word.
pub fn fp_mul(a: i64, b: i64) -> (r: i64)
    requires
        -0x4000_0000_0000_0000 <= a * b <= 0x4000_0000_0000_0000,
    ensures
        r == fp_mul_spec(a as int, b as int),
{
    let p = match a.checked_mul(b) {
        Some(p) => p,
        None => 0,
    };
    div_trunc(p, FP)
}

/// The rational sine approximation on one half wave, `t` in `[0, PI_FP]`:
/// `16 t (pi - t) / (5 pi^2 - 4 t (pi - t))`, scaled into 16.16 and
/// rounded to nearest, so that the wave is exactly `0` at its ends and
/// exactly one unit at its quarter-turn peak.
pub open spec fn half_sine_spec(t: int) -> int {
    let p = t * (205887 - t);
    let den = 5 * 205887 * 205887 - 4 * p;
    dt(16 * p * 65536 + dt(den, 2), den)
}

/// Sine of a fixed-point angle in radians, by euclidean range reduction
/// and the half-wave rational approximation.
pub open spec fn fsin_spec(x: int) -> int {
    let t = x % 411774;
    if t <= 205887 {
        half_sine_spec(t)
    } else {
        -half_sine_spec(t - 205887)
    }
}

/// Cosine as the quarter-turn shift of the sine.
pub open spec fn fcos_spec(x: int) -> int {
    fsin_spec(x + 102943)
}

fn half_sine(t: i64) -> (r: i64)
    requires
        0 <= t <= PI_FP,
    ensures
        r == half_sine_spec(t as int),
        0 <= r <= FP,
{
    assert(0 <= t * (205887 - t) <= 205887 * 205887) by (nonlinear_arith)
        requires 0 <= t <= 205887;
    assert(4 * (t * (205887 - t)) <= 205887 * 205887) by (nonlinear_arith)
        requires 0 <= t <= 205887;
    let p: i64 = t * (PI_FP - t);
    let num: i64 = 16 * p;
    let den: i64 = 5 * PI_FP * PI_FP - 4 * p;
    assert(16 * (t * (205887 - t)) <= 5 * 205887 * 205887 - 4 * (t * (205887 - t)));
    let scaled: i64 = num * 65536;
    let half = div_trunc(den, 2);
    proof {
        assert(num * 65536 <= den * 65536) by (nonlinear_arith)
            requires 0 <= num <= den;
        lemma_div_pos_is_pos(den as int, 2int);
        lemma_div_is_ordered(den as int, 2 * den - 2, 2int);
        assert((2 * (den as int - 1)) / 2 == den - 1) by {
            lemma_div_multiples_vanish(den as int - 1, 2int);
        }
    }
    let r = div_trunc(scaled + half, den);
    proof {
        lemma_div_pos_is_pos(scaled as int + half as int, den as int);
        vstd::arithmetic::div_mod::lemma_div_multiples_vanish_fancy(
            FP as int,
            den as int - 1,
            den as int,
        );
        lemma_div_is_ordered(
            scaled as int + half as int,
            den as int * (FP as int) + den as int - 1,
            den as int,
        );
        assert(scaled as int + half as int <= den as int * (FP as int) + den as int - 1)
            by (nonlinear_arith)
            requires
                scaled == num as int * 65536,
                0 <= num <= den,
                0 <= half <= den - 1,
        ;
    }
    r
}

/// Sine of any fixed-point angle; always within one unit of magnitude.
pub fn fsin(x: i64) -> (r: i64)
    ensures
        r == fsin_spec(x as int),
        -FP <= r <= FP,
{
    let t = rem_euclid(x, TWO_PI_FP);
    if t <= PI_FP {
        half_sine(t)
    } else {
        let s = half_sine(t - PI_FP);
        -s
    }
}

/// Cosine of any fixed-point angle; always within one unit of magnitude.
pub fn fcos(x: i64) -> (r: i64)
    requires
        x < 0x4000_0000_0000_0000,
    ensures
        r == fcos_spec(x as int),
        -FP <= r <= FP,
{
    fsin(x + HALF_PI_FP)
}

/// The floor of the square root of a natural number.
pub open spec fn sqrt_floor(n: nat) -> nat
    decreases n,
{
    if n == 0 {
        0
    } else {
        let s = sqrt_floor((n - 1) as nat);
        if (s + 1) * (s + 1) <= n {
            s + 1
        } else {
            s
        }
    }
}

/// `sqrt_floor` squares to at most its argument, and is the last number
/// that does.
pub proof fn lemma_sqrt_floor_bounds(n: nat)
    ensures
        sqrt_floor(n) * sqrt_floor(n) <= n,
        (sqrt_floor(n) + 1) * (sqrt_floor(n) + 1) > n,
    decreases n,
{
    if n == 0 {
        assert(sqrt_floor(0) == 0);
        assert((sqrt_floor(n) + 1) * (sqrt_floor(n) + 1) == 1) by (nonlinear_arith)
            requires sqrt_floor(n) == 0;
    } else {
        let m = (n - 1) as nat;
        lemma_sqrt_floor_bounds(m);
        let s = sqrt_floor(m);
        let r = sqrt_floor(n);
        if (s + 1) * (s + 1) <= n {
            assert(r == s + 1);
            assert(r * r <= n);
            assert((r + 1) * (r + 1) > n) by (nonlinear_arith)
                requires r == s + 1, (s + 1) * (s + 1) > m, n == m + 1, s >= 0;
        } else {
            assert(r == s);
            assert(r * r <= m);
            assert((r + 1) * (r + 1) > n);
        }
    }
}

/// The two square bounds pin the square root down uniquely.
pub proof fn lemma_sqrt_floor_unique(n: nat, r: nat)
    requires
        r * r <= n,
        (r + 1) * (r + 1) > n,
    ensures
        r == sqrt_floor(n),
{
    let s = sqrt_floor(n);
    lemma_sqrt_floor_bounds(n);
    if r < s {
        assert((r + 1) * (r + 1) <= s * s) by (nonlinear_arith)
            requires r + 1 <= s;
    }
    if s < r {
        assert((s + 1) * (s + 1) <= r * r) by (nonlinear_arith)
            requires s + 1 <= r;
    }
}

/// Integer square root: the greatest `r` with `r * r <= n`.
pub fn isqrt(n: u64) -> (r: u64)
    ensures
        r == sqrt_floor(n as nat),
        r * r <= n,
        (r + 1) * (r + 1) > n,
{
    let r = isqrt_search(n);
    proof {
        lemma_sqrt_floor_unique(n as nat, r as nat);
    }
    r
}

fn isqrt_search(n: u64) -> (r: u64)
    ensures
        r * r <= n,
        (r + 1) * (r + 1) > n,
{
    if n == 0 {
        return 0;
    }
    let mut lo: u64 = 0;
    let mut hi: u64 = 0x1_0000_0000;
    proof {
        assert((0x1_0000_0000u64 as int) * (0x1_0000_0000u64 as int) > n as int) by (nonlinear_arith)
            requires n <= 0xFFFF_FFFF_FFFF_FFFFu64;
    }
    while hi - lo > 1
        invariant
            lo < hi <= 0x1_0000_0000,
            lo * lo <= n,
            hi * hi > n,
        decreases hi - lo,
    {
        let mid: u64 = lo + (hi - lo) / 2;
        assert(lo < mid < hi);
        assert(mid * mid <= 0xFFFF_FFFF_0000_0000u64) by (nonlinear_arith)
            requires mid <= 0xFFFF_FFFFu64;
        if mid * mid <= n {
            lo = mid;
        } else {
            hi = mid;
        }
    }
    lo
}

/// Clamp to a symmetric interval.
pub open spec fn clamp_i(x: int, bound: int) -> int {
    if x > bound {
        bound
    } else if x < -bound {
        -bound
    } else {
        x
    }
}

/// Clamp an `i64` to `[-bound, bound]`.
pub fn clamp(x: i64, bound: i64) -> (r: i64)
    requires
        0 < bound,
    ensures
        r == clamp_i(x as int, bound as int),
        -bound <= r <= bound,
{
    if x > bound {
        bound
    } else if x < -bound {
        -bound
    } else {
        x
    }
}

} // verus!

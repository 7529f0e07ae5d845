//! A seeded coherent-noise field on the fixed-point plane: hashed
//! lattice values blended with a smoothstep weight. This is value
//! noise — a simpler family than the simplex-style fields it stands in
//! for, but seeded, deterministic and coherent in the same way.
//! Constructed once at startup and shared read-only by every frame's
//! uniforms.

use vstd::prelude::*;
use crate::fixed::{dt, abs_i, div_trunc, rem_euclid, lemma_dt_bound, FP};
use vstd::arithmetic::div_mod::lemma_div_pos_is_pos;

verus! {

/// Lattice keys are shifted into nonnegative range by this multiple of `FP`.
pub const NOISE_SHIFT: i64 = 0x200_0000_0000;

/// Coordinates handed to the sampler stay within this bound.
pub const NOISE_COORD_BOUND: i64 = 0x100_0000_0000;

/// The mixing of one lattice corner into a pseudo-random word.
pub open spec fn lattice_hash_spec(seed: u64, xu: u64, yu: u64) -> u64 {
    let h0 = seed ^ xu.wrapping_mul(0x9E37_79B9_7F4A_7C15u64) ^ yu.wrapping_mul(
        0xC2B2_AE3D_27D4_EB4Fu64,
    );
    let h1 = (h0 ^ (h0 >> 33u64)).wrapping_mul(0xFF51_AFD7_ED55_8CCDu64);
    h1 ^ (h1 >> 29u64)
}

/// The value a lattice corner contributes, in `[0, FP)`.
pub open spec fn corner_spec(seed: u64, xu: u64, yu: u64) -> int {
    (lattice_hash_spec(seed, xu, yu) % 0x1_0000u64) as int
}

/// The smoothstep weight `3 t^2 - 2 t^3` of a cell offset in `[0, FP)`.
pub open spec fn smooth_spec(f: int) -> int {
    (f * f * (3 * (FP as int) - 2 * f)) / ((FP as int) * (FP as int))
}

/// Fixed-point linear blend of two lattice values.
pub open spec fn blend_spec(a: int, b: int, t: int) -> int {
    a + dt((b - a) * t, FP as int)
}

/// The sampled field value at a fixed-point point, in `[-FP, FP]`.
pub open spec fn sample2_spec(seed: u64, x: int, y: int) -> int {
    let xs = x + NOISE_SHIFT;
    let ys = y + NOISE_SHIFT;
    let fx = xs % (FP as int);
    let fy = ys % (FP as int);
    let xb = (xs - fx) as u64;
    let yb = (ys - fy) as u64;
    let v00 = corner_spec(seed, xb, yb);
    let v10 = corner_spec(seed, (xb + FP) as u64, yb);
    let v01 = corner_spec(seed, xb, (yb + FP) as u64);
    let v11 = corner_spec(seed, (xb + FP) as u64, (yb + FP) as u64);
    let a = blend_spec(v00, v10, smooth_spec(fx));
    let b = blend_spec(v01, v11, smooth_spec(fx));
    let c = blend_spec(a, b, smooth_spec(fy));
    2 * c - 0xFFFF
}

/// A seeded coherent-noise field.
#[derive(Clone, Copy, PartialEq, Eq, Structural, Debug)]
pub struct NoiseField {
    pub seed: u64,
}

impl NoiseField {
    /// A field over the given seed.
    pub fn new(seed: u64) -> (n: NoiseField)
        ensures
            n.seed == seed,
    {
        NoiseField { seed }
    }

    /// Sample the field at a fixed-point point on the plane.
    pub fn sample2(&self, x: i64, y: i64) -> (r: i64)
        requires
            abs_i(x as int) <= NOISE_COORD_BOUND,
            abs_i(y as int) <= NOISE_COORD_BOUND,
        ensures
            r == sample2_spec(self.seed, x as int, y as int),
            -FP <= r <= FP,
    {
        let xs: i64 = x + NOISE_SHIFT;
        let ys: i64 = y + NOISE_SHIFT;
        let fx = rem_euclid(xs, FP);
        let fy = rem_euclid(ys, FP);
        let xb: u64 = (xs - fx) as u64;
        let yb: u64 = (ys - fy) as u64;
        let v00 = corner(self.seed, xb, yb);
        let v10 = corner(self.seed, xb + FP as u64, yb);
        let v01 = corner(self.seed, xb, yb + FP as u64);
        let v11 = corner(self.seed, xb + FP as u64, yb + FP as u64);
        let sx = smooth(fx);
        let sy = smooth(fy);
        let a = blend(v00, v10, sx);
        let b = blend(v01, v11, sx);
        let c = blend(a, b, sy);
        2 * c - 0xFFFF
    }
}

fn corner(seed: u64, xu: u64, yu: u64) -> (r: i64)
    ensures
        r == corner_spec(seed, xu, yu),
        0 <= r < FP,
{
    let h0 = seed ^ xu.wrapping_mul(0x9E37_79B9_7F4A_7C15u64) ^ yu.wrapping_mul(
        0xC2B2_AE3D_27D4_EB4Fu64,
    );
    let h1 = (h0 ^ (h0 >> 33u64)).wrapping_mul(0xFF51_AFD7_ED55_8CCDu64);
    let h = h1 ^ (h1 >> 29u64);
    (h % 0x1_0000u64) as i64
}

fn smooth(f: i64) -> (r: i64)
    requires
        0 <= f < FP,
    ensures
        r == smooth_spec(f as int),
        0 <= r <= FP,
{
    assert(0 <= f * f <= 0x1_0000_0000int && 0 <= f * f * (3 * 65536 - 2 * f)
        <= 0x1_0000_0000_0000int) by (nonlinear_arith)
        requires 0 <= f < 65536;
    let p: i64 = f * f * (3 * FP - 2 * f);
    let r = div_trunc(p, 65536 * 65536);
    proof {
        lemma_div_pos_is_pos(p as int, 0x1_0000_0000int);
        lemma_dt_bound(p as int, 0x1_0000_0000int, FP as int);
        assert(dt(p as int, 0x1_0000_0000int) == (p as int) / 0x1_0000_0000int);
    }
    r
}

fn blend(a: i64, b: i64, t: i64) -> (r: i64)
    requires
        0 <= a < FP,
        0 <= b < FP,
        0 <= t <= FP,
    ensures
        r == blend_spec(a as int, b as int, t as int),
        0 <= r < FP,
{
    let diff: i64 = b - a;
    assert(abs_i(diff as int * t as int) <= abs_i(diff as int) * 65536) by (nonlinear_arith)
        requires 0 <= t <= 65536, -65536 < diff < 65536;
    let p: i64 = diff * t;
    let d = div_trunc(p, FP);
    proof {
        lemma_dt_bound(p as int, FP as int, abs_i(diff as int));
        lemma_div_pos_is_pos(abs_i(p as int), FP as int);
        if diff >= 0 {
            assert(p >= 0) by (nonlinear_arith)
                requires diff >= 0, t >= 0, p == diff as int * t as int;
            assert(dt(p as int, FP as int) >= 0);
        } else {
            assert(p <= 0) by (nonlinear_arith)
                requires diff < 0, t >= 0, p == diff as int * t as int;
            assert(dt(p as int, FP as int) <= 0);
        }
    }
    a + d
}

} // verus!

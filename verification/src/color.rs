//! Packed RGB colors and the channel arithmetic every shader uses:
//! scaling by a fixed-point intensity, saturating addition, and linear
//! interpolation between two colors.

use vstd::prelude::*;
use crate::fixed::{dt, abs_i, lemma_dt_bound, div_trunc, FP};
use vstd::arithmetic::div_mod::lemma_div_pos_is_pos;

verus! {

/// An RGB color, one byte per channel.
#[derive(Clone, Copy, PartialEq, Eq, Structural, Debug)]
pub struct Color {
    pub r: u8,
    pub g: u8,
    pub b: u8,
}

/// One channel scaled by a fixed-point factor in `[0, FP]`.
pub open spec fn scale_channel(ch: int, k: int) -> int {
    (ch * k) / (FP as int)
}

/// One channel moved toward a target by a fixed-point blend factor.
pub open spec fn lerp_channel(a: int, b: int, t: int) -> int {
    a + dt((b - a) * t, FP as int)
}

impl Color {
    /// Color from its three channels.
    pub fn new(r: u8, g: u8, b: u8) -> (c: Color)
        ensures
            c == (Color { r, g, b }),
    {
        Color { r, g, b }
    }

    /// The packed `0x00RRGGBB` form of this color.
    pub open spec fn to_hex_spec(self) -> int {
        self.r * 0x10000 + self.g * 0x100 + self.b
    }

    /// Pack the channels into one `0x00RRGGBB` word.
    pub fn to_hex(&self) -> (h: u32)
        ensures
            h == self.to_hex_spec(),
    {
        (self.r as u32) * 0x10000 + (self.g as u32) * 0x100 + (self.b as u32)
    }

    /// Unpack a `0x00RRGGBB` word; bits above the low 24 are ignored.
    pub fn from_hex(h: u32) -> (c: Color)
        ensures
            c.r == (h as int / 0x10000) % 0x100,
            c.g == (h as int / 0x100) % 0x100,
            c.b == h as int % 0x100,
    {
        Color { r: ((h / 0x10000) % 0x100) as u8, g: ((h / 0x100) % 0x100) as u8, b: (h % 0x100) as u8 }
    }

    /// This color with every channel scaled by `k` in `[0, FP]`.
    pub open spec fn scale_spec(self, k: int) -> Color {
        Color {
            r: scale_channel(self.r as int, k) as u8,
            g: scale_channel(self.g as int, k) as u8,
            b: scale_channel(self.b as int, k) as u8,
        }
    }

    /// Multiply each channel by a fixed-point factor in `[0, FP]`,
    /// the way a shader applies a fragment's intensity.
    pub fn scale(self, k: i64) -> (c: Color)
        requires
            0 <= k <= FP,
        ensures
            c == self.scale_spec(k as int),
    {
        Color {
            r: scale_channel_exec(self.r, k),
            g: scale_channel_exec(self.g, k),
            b: scale_channel_exec(self.b, k),
        }
    }

    /// Per-channel saturating addition.
    pub open spec fn add_spec(self, other: Color) -> Color {
        Color {
            r: sat_add_channel(self.r as int, other.r as int) as u8,
            g: sat_add_channel(self.g as int, other.g as int) as u8,
            b: sat_add_channel(self.b as int, other.b as int) as u8,
        }
    }

    /// Add another color channel-wise, saturating at white.
    pub fn add(self, other: Color) -> (c: Color)
        ensures
            c == self.add_spec(other),
    {
        Color {
            r: sat_add_channel_exec(self.r, other.r),
            g: sat_add_channel_exec(self.g, other.g),
            b: sat_add_channel_exec(self.b, other.b),
        }
    }

    /// Linear interpolation toward `other` by a factor `t` in `[0, FP]`.
    pub open spec fn lerp_spec(self, other: Color, t: int) -> Color {
        Color {
            r: lerp_channel(self.r as int, other.r as int, t) as u8,
            g: lerp_channel(self.g as int, other.g as int, t) as u8,
            b: lerp_channel(self.b as int, other.b as int, t) as u8,
        }
    }

    /// Blend toward `other`: `t == 0` keeps `self`, `t == FP` gives `other`.
    pub fn lerp(self, other: Color, t: i64) -> (c: Color)
        requires
            0 <= t <= FP,
        ensures
            c == self.lerp_spec(other, t as int),
    {
        Color {
            r: lerp_channel_exec(self.r, other.r, t),
            g: lerp_channel_exec(self.g, other.g, t),
            b: lerp_channel_exec(self.b, other.b, t),
        }
    }
}

/// Saturating channel sum.
pub open spec fn sat_add_channel(a: int, b: int) -> int {
    if a + b > 255 { 255 } else { a + b }
}

fn sat_add_channel_exec(a: u8, b: u8) -> (r: u8)
    ensures
        r == sat_add_channel(a as int, b as int),
{
    let s: u32 = a as u32 + b as u32;
    if s > 255 { 255 } else { s as u8 }
}

fn scale_channel_exec(ch: u8, k: i64) -> (r: u8)
    requires
        0 <= k <= FP,
    ensures
        r == scale_channel(ch as int, k as int) as u8,
        0 <= scale_channel(ch as int, k as int) <= 255,
{
    assert(0 <= (ch as int) * (k as int) <= 255 * 65536) by (nonlinear_arith)
        requires 0 <= ch <= 255, 0 <= k <= 65536;
    let p: i64 = (ch as i64) * k;
    let q = div_trunc(p, FP);
    proof {
        lemma_dt_bound(p as int, FP as int, 255);
        lemma_div_pos_is_pos(p as int, FP as int);
        assert(dt(p as int, FP as int) == (p as int) / (FP as int));
    }
    q as u8
}

fn lerp_channel_exec(a: u8, b: u8, t: i64) -> (r: u8)
    requires
        0 <= t <= FP,
    ensures
        r == lerp_channel(a as int, b as int, t as int) as u8,
        0 <= lerp_channel(a as int, b as int, t as int) <= 255,
{
    let diff: i64 = b as i64 - a as i64;
    assert(abs_i(diff as int * t as int) <= abs_i(diff as int) * 65536) by (nonlinear_arith)
        requires 0 <= t <= 65536, -255 <= diff <= 255;
    let p: i64 = diff * t;
    let d = div_trunc(p, FP);
    proof {
        lemma_dt_bound(p as int, FP as int, abs_i(diff as int));
        lemma_div_pos_is_pos(abs_i(p as int), FP as int);
        if diff >= 0 {
            assert(p >= 0) by (nonlinear_arith)
                requires diff >= 0, t >= 0, p == diff as int * t as int;
            assert(dt(p as int, FP as int) >= 0);
        } else {
            assert(p <= 0) by (nonlinear_arith)
                requires diff < 0, t >= 0, p == diff as int * t as int;
            assert(dt(p as int, FP as int) <= 0);
        }
    }
    (a as i64 + d) as u8
}

} // verus!

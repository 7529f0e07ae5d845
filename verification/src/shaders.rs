//! The vertex stage and the closed set of procedural fragment shaders:
//! each shader is a pure function from a fragment and the frame's
//! uniforms to a color, driven by the seeded noise field and time.

use vstd::prelude::*;
use crate::fixed::{dt, abs_i, clamp, clamp_i, div_trunc, fsin, fsin_spec, lemma_dt_bound, lemma_mul_bound, FP};
use crate::linalg::{Vec4, mat_vec, mat_vec_spec, dot3, dot3_spec, Vec3, VEC_BOUND};
use crate::vertex::{Vertex, ScreenVertex, Fragment, EXTENT, DEPTH_BOUND};
use crate::color::Color;
use crate::noise::sample2_spec;
use crate::pipeline::Uniforms;
use vstd::arithmetic::div_mod::lemma_div_pos_is_pos;

verus! {

/// The fixed light direction the vertex stage shades against, roughly
/// the unit diagonal.
pub const LIGHT_X: i64 = 37837;

/// See `LIGHT_X`.
pub const LIGHT_Y: i64 = 37837;

/// See `LIGHT_X`.
pub const LIGHT_Z: i64 = 37837;

/// A signed unit value in `[0, FP]`, used to turn a noise or wave
/// sample into a blend factor.
pub open spec fn band_unit_spec(v: int) -> int {
    dt(v + FP, 2)
}

fn band_unit(v: i64) -> (t: i64)
    requires
        -FP <= v <= FP,
    ensures
        t == band_unit_spec(v as int),
        0 <= t <= FP,
{
    let r = div_trunc(v + FP, 2);
    proof {
        lemma_dt_bound(v as int + FP as int, 2int, FP as int);
        lemma_div_pos_is_pos(v as int + FP as int, 2int);
    }
    r
}

/// A fragment's intensity clamped into `[0, FP]`.
pub open spec fn clamp_unit_spec(v: int) -> int {
    if v < 0 { 0 } else if v > FP { FP as int } else { v }
}

fn clamp_unit(v: i64) -> (t: i64)
    ensures
        t == clamp_unit_spec(v as int),
        0 <= t <= FP,
{
    if v < 0 { 0 } else if v > FP { FP } else { v }
}

/// What the vertex stage produces: the position taken through the
/// model, view, projection and viewport matrices and divided by the
/// homogeneous coordinate (screen extent when that coordinate is zero),
/// the normal and texture coordinate passed through, and the intensity
/// as the clamped dot of the normal with the fixed light direction.
pub open spec fn vertex_shader_spec(v: Vertex, u: Uniforms) -> ScreenVertex {
    let p0 = Vec4 { x: v.position.x, y: v.position.y, z: v.position.z, w: FP };
    let p1 = mat_vec_spec(u.model_matrix, p0);
    let p2 = mat_vec_spec(u.view_matrix, p1);
    let p3 = mat_vec_spec(u.projection_matrix, p2);
    let p4 = mat_vec_spec(u.viewport_matrix, p3);
    let light = Vec3 { x: LIGHT_X, y: LIGHT_Y, z: LIGHT_Z };
    let intensity = clamp_unit_spec(dot3_spec(v.normal, light));
    if p4.w == 0 {
        ScreenVertex {
            x: EXTENT,
            y: EXTENT,
            depth: DEPTH_BOUND,
            normal: v.normal,
            tex_coords: v.tex_coords,
            intensity: intensity as i64,
        }
    } else {
        ScreenVertex {
            x: clamp_i(dt(p4.x as int, p4.w as int), EXTENT as int) as i64,
            y: clamp_i(dt(p4.y as int, p4.w as int), EXTENT as int) as i64,
            depth: clamp_i(dt(p4.z * (FP as int), p4.w as int), DEPTH_BOUND as int) as i64,
            normal: v.normal,
            tex_coords: v.tex_coords,
            intensity: intensity as i64,
        }
    }
}

/// The vertex stage: purely functional, safe to run over the mesh in
/// any order.
pub fn vertex_shader(v: &Vertex, u: &Uniforms) -> (r: ScreenVertex)
    requires
        v.wf(),
        u.wf(),
    ensures
        r == vertex_shader_spec(*v, *u),
        r.wf(),
{
    let p0 = Vec4 { x: v.position.x, y: v.position.y, z: v.position.z, w: FP };
    let p1 = mat_vec(&u.model_matrix, &p0);
    let p2 = mat_vec(&u.view_matrix, &p1);
    let p3 = mat_vec(&u.projection_matrix, &p2);
    let p4 = mat_vec(&u.viewport_matrix, &p3);
    let light = Vec3 { x: LIGHT_X, y: LIGHT_Y, z: LIGHT_Z };
    let d = dot3(&v.normal, &light, Ghost(0x2_0000int), Ghost(0x1_0000int));
    let intensity = clamp_unit(d);
    if p4.w == 0 {
        ScreenVertex {
            x: EXTENT,
            y: EXTENT,
            depth: DEPTH_BOUND,
            normal: v.normal,
            tex_coords: v.tex_coords,
            intensity,
        }
    } else {
        proof {
            lemma_mul_bound(p4.z as int, FP as int, VEC_BOUND as int, FP as int);
        }
        let zf: i64 = p4.z * FP;
        ScreenVertex {
            x: clamp(div_trunc(p4.x, p4.w), EXTENT),
            y: clamp(div_trunc(p4.y, p4.w), EXTENT),
            depth: clamp(div_trunc(zf, p4.w), DEPTH_BOUND),
            normal: v.normal,
            tex_coords: v.tex_coords,
            intensity,
        }
    }
}

/// The closed set of shader variants, selected at runtime by input.
#[derive(Clone, Copy, PartialEq, Eq, Structural, Debug)]
pub enum ShaderKind {
    Rocky,
    GasGiant,
    GasGiant2,
    Volcanic,
    Icy,
    Desert,
    Water,
    Moon,
    Ring,
}

/// Noise-threaded rock: dark ground blended toward light gray, lit.
pub open spec fn rocky_spec(f: Fragment, u: Uniforms) -> Color {
    let n = sample2_spec(u.noise.seed, f.tex_coords.x * 8, f.tex_coords.y * 8);
    let t = band_unit_spec(n);
    Color { r: 96, g: 72, b: 56 }.lerp_spec(Color { r: 180, g: 170, b: 160 }, t).scale_spec(f.intensity as int)
}

/// Latitude bands from the normal's vertical component, drifting with
/// time, over a warm palette, lit.
pub open spec fn gas_giant_spec(f: Fragment, u: Uniforms) -> Color {
    let band = fsin_spec(f.normal.y * 6 + u.time * 2);
    let t = band_unit_spec(band);
    Color { r: 200, g: 160, b: 110 }.lerp_spec(Color { r: 120, g: 90, b: 60 }, t).scale_spec(f.intensity as int)
}

/// Banding like the first gas giant, turbulence added from the noise
/// field, a paler palette, lit.
pub open spec fn gas_giant2_spec(f: Fragment, u: Uniforms) -> Color {
    let n = sample2_spec(u.noise.seed, f.tex_coords.x * 4, f.tex_coords.y * 4 + u.time);
    let band = fsin_spec(f.normal.y * 8 + n);
    let t = band_unit_spec(band);
    Color { r: 230, g: 200, b: 150 }.lerp_spec(Color { r: 150, g: 110, b: 80 }, t).scale_spec(f.intensity as int)
}

/// Noise above the threshold glows as lava, the rest is dark rock, lit.
pub open spec fn volcanic_spec(f: Fragment, u: Uniforms) -> Color {
    let n = sample2_spec(u.noise.seed, f.tex_coords.x * 6, f.tex_coords.y * 6);
    let t = band_unit_spec(n);
    let base = if n > 13107 {
        Color { r: 255, g: 80, b: 0 }.lerp_spec(Color { r: 255, g: 200, b: 0 }, t)
    } else {
        Color { r: 60, g: 40, b: 40 }.lerp_spec(Color { r: 90, g: 70, b: 60 }, t)
    };
    base.scale_spec(f.intensity as int)
}

/// Pale ice blended toward glacial blue by the noise field, lit.
pub open spec fn icy_spec(f: Fragment, u: Uniforms) -> Color {
    let n = sample2_spec(u.noise.seed, f.tex_coords.x * 5, f.tex_coords.y * 5);
    let t = band_unit_spec(n);
    Color { r: 235, g: 245, b: 255 }.lerp_spec(Color { r: 140, g: 180, b: 220 }, t).scale_spec(f.intensity as int)
}

/// Dunes: sand blended toward darker ochre by the noise field, lit.
pub open spec fn desert_spec(f: Fragment, u: Uniforms) -> Color {
    let n = sample2_spec(u.noise.seed, f.tex_coords.x * 3, f.tex_coords.y * 3);
    let t = band_unit_spec(n);
    Color { r: 210, g: 180, b: 120 }.lerp_spec(Color { r: 160, g: 120, b: 70 }, t).scale_spec(f.intensity as int)
}

/// Deep water brightened by a time-driven wave mixed with noise, lit.
pub open spec fn water_spec(f: Fragment, u: Uniforms) -> Color {
    let w = fsin_spec(f.tex_coords.x * 4 + u.time * 3);
    let n = sample2_spec(u.noise.seed, f.tex_coords.x * 2, f.tex_coords.y * 2);
    let t = band_unit_spec(dt(w + n, 2));
    Color { r: 10, g: 40, b: 120 }.lerp_spec(Color { r: 40, g: 120, b: 200 }, t).scale_spec(f.intensity as int)
}

/// Cratered gray blended by the noise field, lit.
pub open spec fn moon_spec(f: Fragment, u: Uniforms) -> Color {
    let n = sample2_spec(u.noise.seed, f.tex_coords.x * 7, f.tex_coords.y * 7);
    let t = band_unit_spec(n);
    Color { r: 220, g: 220, b: 215 }.lerp_spec(Color { r: 110, g: 110, b: 105 }, t).scale_spec(f.intensity as int)
}

/// Concentric ring bands from the texture coordinate alone, unlit.
pub open spec fn ring_spec(f: Fragment, u: Uniforms) -> Color {
    let band = fsin_spec(f.tex_coords.x * 32);
    let t = band_unit_spec(band);
    Color { r: 210, g: 200, b: 180 }.lerp_spec(Color { r: 90, g: 80, b: 70 }, t)
}

/// The color the selected shader variant gives a fragment.
pub open spec fn shade_spec(kind: ShaderKind, f: Fragment, u: Uniforms) -> Color {
    match kind {
        ShaderKind::Rocky => rocky_spec(f, u),
        ShaderKind::GasGiant => gas_giant_spec(f, u),
        ShaderKind::GasGiant2 => gas_giant2_spec(f, u),
        ShaderKind::Volcanic => volcanic_spec(f, u),
        ShaderKind::Icy => icy_spec(f, u),
        ShaderKind::Desert => desert_spec(f, u),
        ShaderKind::Water => water_spec(f, u),
        ShaderKind::Moon => moon_spec(f, u),
        ShaderKind::Ring => ring_spec(f, u),
    }
}

/// Shade one fragment with the selected variant. The result is a pure
/// function of the arguments: identical fragment and uniforms give the
/// identical color.
pub fn shade(kind: ShaderKind, f: &Fragment, u: &Uniforms) -> (c: Color)
    requires
        f.wf(),
        u.wf(),
    ensures
        c == shade_spec(kind, *f, *u),
{
    match kind {
        ShaderKind::Rocky => {
            let n = u.noise.sample2(f.tex_coords.x * 8, f.tex_coords.y * 8);
            let t = band_unit(n);
            Color::new(96, 72, 56).lerp(Color::new(180, 170, 160), t).scale(f.intensity)
        },
        ShaderKind::GasGiant => {
            let band = fsin(f.normal.y * 6 + u.time * 2);
            let t = band_unit(band);
            Color::new(200, 160, 110).lerp(Color::new(120, 90, 60), t).scale(f.intensity)
        },
        ShaderKind::GasGiant2 => {
            let n = u.noise.sample2(f.tex_coords.x * 4, f.tex_coords.y * 4 + u.time);
            let band = fsin(f.normal.y * 8 + n);
            let t = band_unit(band);
            Color::new(230, 200, 150).lerp(Color::new(150, 110, 80), t).scale(f.intensity)
        },
        ShaderKind::Volcanic => {
            let n = u.noise.sample2(f.tex_coords.x * 6, f.tex_coords.y * 6);
            let t = band_unit(n);
            let base = if n > 13107 {
                Color::new(255, 80, 0).lerp(Color::new(255, 200, 0), t)
            } else {
                Color::new(60, 40, 40).lerp(Color::new(90, 70, 60), t)
            };
            base.scale(f.intensity)
        },
        ShaderKind::Icy => {
            let n = u.noise.sample2(f.tex_coords.x * 5, f.tex_coords.y * 5);
            let t = band_unit(n);
            Color::new(235, 245, 255).lerp(Color::new(140, 180, 220), t).scale(f.intensity)
        },
        ShaderKind::Desert => {
            let n = u.noise.sample2(f.tex_coords.x * 3, f.tex_coords.y * 3);
            let t = band_unit(n);
            Color::new(210, 180, 120).lerp(Color::new(160, 120, 70), t).scale(f.intensity)
        },
        ShaderKind::Water => {
            let w = fsin(f.tex_coords.x * 4 + u.time * 3);
            let n = u.noise.sample2(f.tex_coords.x * 2, f.tex_coords.y * 2);
            let mixed = div_trunc(w + n, 2);
            proof {
                lemma_dt_bound(w as int + n as int, 2int, FP as int);
            }
            let t = band_unit(mixed);
            Color::new(10, 40, 120).lerp(Color::new(40, 120, 200), t).scale(f.intensity)
        },
        ShaderKind::Moon => {
            let n = u.noise.sample2(f.tex_coords.x * 7, f.tex_coords.y * 7);
            let t = band_unit(n);
            Color::new(220, 220, 215).lerp(Color::new(110, 110, 105), t).scale(f.intensity)
        },
        ShaderKind::Ring => {
            let band = fsin(f.tex_coords.x * 32);
            let t = band_unit(band);
            Color::new(210, 200, 180).lerp(Color::new(90, 80, 70), t)
        },
    }
}

/// Shading is deterministic: two colors computed by the same variant
/// from the same fragment and uniforms are bit-identical.
pub proof fn lemma_shader_deterministic(kind: ShaderKind, f: Fragment, u: Uniforms, c1: Color, c2: Color)
    requires
        c1 == shade_spec(kind, f, u),
        c2 == shade_spec(kind, f, u),
    ensures
        c1 == c2,
{
}

} // verus!

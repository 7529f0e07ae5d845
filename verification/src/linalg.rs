//! Fixed-point vectors and 4x4 matrices: the carriers of every transform
//! in the pipeline. Matrix application saturates at a generous bound so
//! that unclipped geometry can never overflow a machine word.

use vstd::prelude::*;
use crate::fixed::{dt, abs_i, clamp_i, clamp, div_trunc, div_trunc128, fp_mul_spec, lemma_dt_bound, lemma_mul_bound, FP};
use vstd::arithmetic::div_mod::lemma_fundamental_div_mod;

verus! {

/// Every matrix handed to `mat_vec` keeps its entries within this bound.
pub const MAT_BOUND: i64 = 0x1400_0000;

/// Vectors flowing through the transform chain saturate at this bound.
pub const VEC_BOUND: i64 = 0x4000_0000_0000;

/// A 2D fixed-point vector (texture coordinates).
#[derive(Clone, Copy, PartialEq, Eq, Structural, Debug)]
pub struct Vec2 {
    pub x: i64,
    pub y: i64,
}

/// A 3D fixed-point vector (positions, normals, camera state).
#[derive(Clone, Copy, PartialEq, Eq, Structural, Debug)]
pub struct Vec3 {
    pub x: i64,
    pub y: i64,
    pub z: i64,
}

/// A homogeneous 4D fixed-point vector.
#[derive(Clone, Copy, PartialEq, Eq, Structural, Debug)]
pub struct Vec4 {
    pub x: i64,
    pub y: i64,
    pub z: i64,
    pub w: i64,
}

/// A row-major 4x4 fixed-point matrix; `mRC` is row `R`, column `C`.
#[derive(Clone, Copy, PartialEq, Eq, Structural, Debug)]
pub struct Mat4 {
    pub m00: i64, pub m01: i64, pub m02: i64, pub m03: i64,
    pub m10: i64, pub m11: i64, pub m12: i64, pub m13: i64,
    pub m20: i64, pub m21: i64, pub m22: i64, pub m23: i64,
    pub m30: i64, pub m31: i64, pub m32: i64, pub m33: i64,
}

/// All entries of `m` are within `b` in magnitude.
pub open spec fn mat_bounded(m: Mat4, b: int) -> bool {
    &&& abs_i(m.m00 as int) <= b && abs_i(m.m01 as int) <= b && abs_i(m.m02 as int) <= b && abs_i(m.m03 as int) <= b
    &&& abs_i(m.m10 as int) <= b && abs_i(m.m11 as int) <= b && abs_i(m.m12 as int) <= b && abs_i(m.m13 as int) <= b
    &&& abs_i(m.m20 as int) <= b && abs_i(m.m21 as int) <= b && abs_i(m.m22 as int) <= b && abs_i(m.m23 as int) <= b
    &&& abs_i(m.m30 as int) <= b && abs_i(m.m31 as int) <= b && abs_i(m.m32 as int) <= b && abs_i(m.m33 as int) <= b
}

/// All coordinates of `v` are within `b` in magnitude.
pub open spec fn vec4_bounded(v: Vec4, b: int) -> bool {
    &&& abs_i(v.x as int) <= b
    &&& abs_i(v.y as int) <= b
    &&& abs_i(v.z as int) <= b
    &&& abs_i(v.w as int) <= b
}

/// All coordinates of `v` are within `b` in magnitude.
pub open spec fn vec3_bounded(v: Vec3, b: int) -> bool {
    &&& abs_i(v.x as int) <= b
    &&& abs_i(v.y as int) <= b
    &&& abs_i(v.z as int) <= b
}

/// The fixed-point dot product of a matrix row with a matrix column.
pub open spec fn dot4_spec(
    a0: int, a1: int, a2: int, a3: int,
    b0: int, b1: int, b2: int, b3: int,
) -> int {
    dt(a0 * b0 + a1 * b1 + a2 * b2 + a3 * b3, FP as int)
}

fn row_col(
    a0: i64, a1: i64, a2: i64, a3: i64,
    b0: i64, b1: i64, b2: i64, b3: i64,
    Ghost(ab): Ghost<int>,
    Ghost(bb): Ghost<int>,
) -> (r: i64)
    requires
        0 < ab,
        0 < bb,
        abs_i(a0 as int) <= ab && abs_i(a1 as int) <= ab && abs_i(a2 as int) <= ab && abs_i(a3 as int) <= ab,
        abs_i(b0 as int) <= bb && abs_i(b1 as int) <= bb && abs_i(b2 as int) <= bb && abs_i(b3 as int) <= bb,
        4 * ab * bb <= 0x4000_0000_0000_0000,
    ensures
        r == dot4_spec(a0 as int, a1 as int, a2 as int, a3 as int, b0 as int, b1 as int, b2 as int, b3 as int),
        abs_i(r as int) <= 4 * ab * bb / (FP as int) + 1,
{
    proof {
        lemma_mul_bound(a0 as int, b0 as int, ab, bb);
        lemma_mul_bound(a1 as int, b1 as int, ab, bb);
        lemma_mul_bound(a2 as int, b2 as int, ab, bb);
        lemma_mul_bound(a3 as int, b3 as int, ab, bb);
        assert(ab * bb <= 0x1000_0000_0000_0000) by (nonlinear_arith)
            requires 4 * ab * bb <= 0x4000_0000_0000_0000, 0 < ab, 0 < bb;
    }
    let s: i64 = a0 * b0 + a1 * b1 + a2 * b2 + a3 * b3;
    let r = div_trunc(s, FP);
    proof {
        assert(4 * ab * bb == 4 * (ab * bb)) by (nonlinear_arith);
        let q = 4 * ab * bb / (FP as int);
        lemma_fundamental_div_mod(4 * ab * bb, FP as int);
        assert(abs_i(s as int) <= (q + 1) * (FP as int)) by (nonlinear_arith)
            requires
                abs_i(s as int) <= 4 * ab * bb,
                4 * ab * bb == (FP as int) * q + 4 * ab * bb % (FP as int),
                0 <= 4 * ab * bb % (FP as int) < FP as int,
        ;
        lemma_dt_bound(s as int, FP as int, q + 1);
    }
    r
}

/// The fixed-point matrix product, row by column.
pub open spec fn mat_mul_spec(a: Mat4, b: Mat4) -> Mat4 {
    Mat4 {
        m00: dot4_spec(a.m00 as int, a.m01 as int, a.m02 as int, a.m03 as int, b.m00 as int, b.m10 as int, b.m20 as int, b.m30 as int) as i64,
        m01: dot4_spec(a.m00 as int, a.m01 as int, a.m02 as int, a.m03 as int, b.m01 as int, b.m11 as int, b.m21 as int, b.m31 as int) as i64,
        m02: dot4_spec(a.m00 as int, a.m01 as int, a.m02 as int, a.m03 as int, b.m02 as int, b.m12 as int, b.m22 as int, b.m32 as int) as i64,
        m03: dot4_spec(a.m00 as int, a.m01 as int, a.m02 as int, a.m03 as int, b.m03 as int, b.m13 as int, b.m23 as int, b.m33 as int) as i64,
        m10: dot4_spec(a.m10 as int, a.m11 as int, a.m12 as int, a.m13 as int, b.m00 as int, b.m10 as int, b.m20 as int, b.m30 as int) as i64,
        m11: dot4_spec(a.m10 as int, a.m11 as int, a.m12 as int, a.m13 as int, b.m01 as int, b.m11 as int, b.m21 as int, b.m31 as int) as i64,
        m12: dot4_spec(a.m10 as int, a.m11 as int, a.m12 as int, a.m13 as int, b.m02 as int, b.m12 as int, b.m22 as int, b.m32 as int) as i64,
        m13: dot4_spec(a.m10 as int, a.m11 as int, a.m12 as int, a.m13 as int, b.m03 as int, b.m13 as int, b.m23 as int, b.m33 as int) as i64,
        m20: dot4_spec(a.m20 as int, a.m21 as int, a.m22 as int, a.m23 as int, b.m00 as int, b.m10 as int, b.m20 as int, b.m30 as int) as i64,
        m21: dot4_spec(a.m20 as int, a.m21 as int, a.m22 as int, a.m23 as int, b.m01 as int, b.m11 as int, b.m21 as int, b.m31 as int) as i64,
        m22: dot4_spec(a.m20 as int, a.m21 as int, a.m22 as int, a.m23 as int, b.m02 as int, b.m12 as int, b.m22 as int, b.m32 as int) as i64,
        m23: dot4_spec(a.m20 as int, a.m21 as int, a.m22 as int, a.m23 as int, b.m03 as int, b.m13 as int, b.m23 as int, b.m33 as int) as i64,
        m30: dot4_spec(a.m30 as int, a.m31 as int, a.m32 as int, a.m33 as int, b.m00 as int, b.m10 as int, b.m20 as int, b.m30 as int) as i64,
        m31: dot4_spec(a.m30 as int, a.m31 as int, a.m32 as int, a.m33 as int, b.m01 as int, b.m11 as int, b.m21 as int, b.m31 as int) as i64,
        m32: dot4_spec(a.m30 as int, a.m31 as int, a.m32 as int, a.m33 as int, b.m02 as int, b.m12 as int, b.m22 as int, b.m32 as int) as i64,
        m33: dot4_spec(a.m30 as int, a.m31 as int, a.m32 as int, a.m33 as int, b.m03 as int, b.m13 as int, b.m23 as int, b.m33 as int) as i64,
    }
}

/// Multiply two fixed-point matrices whose entries are within the ghost
/// bounds `ab` and `bb`.
pub fn mat_mul(a: &Mat4, b: &Mat4, Ghost(ab): Ghost<int>, Ghost(bb): Ghost<int>) -> (r: Mat4)
    requires
        0 < ab,
        0 < bb,
        mat_bounded(*a, ab),
        mat_bounded(*b, bb),
        4 * ab * bb <= 0x4000_0000_0000_0000,
    ensures
        r == mat_mul_spec(*a, *b),
        mat_bounded(r, 4 * ab * bb / (FP as int) + 1),
{
    Mat4 {
        m00: row_col(a.m00, a.m01, a.m02, a.m03, b.m00, b.m10, b.m20, b.m30, Ghost(ab), Ghost(bb)),
        m01: row_col(a.m00, a.m01, a.m02, a.m03, b.m01, b.m11, b.m21, b.m31, Ghost(ab), Ghost(bb)),
        m02: row_col(a.m00, a.m01, a.m02, a.m03, b.m02, b.m12, b.m22, b.m32, Ghost(ab), Ghost(bb)),
        m03: row_col(a.m00, a.m01, a.m02, a.m03, b.m03, b.m13, b.m23, b.m33, Ghost(ab), Ghost(bb)),
        m10: row_col(a.m10, a.m11, a.m12, a.m13, b.m00, b.m10, b.m20, b.m30, Ghost(ab), Ghost(bb)),
        m11: row_col(a.m10, a.m11, a.m12, a.m13, b.m01, b.m11, b.m21, b.m31, Ghost(ab), Ghost(bb)),
        m12: row_col(a.m10, a.m11, a.m12, a.m13, b.m02, b.m12, b.m22, b.m32, Ghost(ab), Ghost(bb)),
        m13: row_col(a.m10, a.m11, a.m12, a.m13, b.m03, b.m13, b.m23, b.m33, Ghost(ab), Ghost(bb)),
        m20: row_col(a.m20, a.m21, a.m22, a.m23, b.m00, b.m10, b.m20, b.m30, Ghost(ab), Ghost(bb)),
        m21: row_col(a.m20, a.m21, a.m22, a.m23, b.m01, b.m11, b.m21, b.m31, Ghost(ab), Ghost(bb)),
        m22: row_col(a.m20, a.m21, a.m22, a.m23, b.m02, b.m12, b.m22, b.m32, Ghost(ab), Ghost(bb)),
        m23: row_col(a.m20, a.m21, a.m22, a.m23, b.m03, b.m13, b.m23, b.m33, Ghost(ab), Ghost(bb)),
        m30: row_col(a.m30, a.m31, a.m32, a.m33, b.m00, b.m10, b.m20, b.m30, Ghost(ab), Ghost(bb)),
        m31: row_col(a.m30, a.m31, a.m32, a.m33, b.m01, b.m11, b.m21, b.m31, Ghost(ab), Ghost(bb)),
        m32: row_col(a.m30, a.m31, a.m32, a.m33, b.m02, b.m12, b.m22, b.m32, Ghost(ab), Ghost(bb)),
        m33: row_col(a.m30, a.m31, a.m32, a.m33, b.m03, b.m13, b.m23, b.m33, Ghost(ab), Ghost(bb)),
    }
}

/// One row of a matrix applied to a homogeneous vector, saturated at
/// `VEC_BOUND`.
pub open spec fn apply_row_spec(m0: int, m1: int, m2: int, m3: int, v: Vec4) -> int {
    clamp_i(dt(m0 * v.x + m1 * v.y + m2 * v.z + m3 * v.w, FP as int), VEC_BOUND as int)
}

fn apply_row(m0: i64, m1: i64, m2: i64, m3: i64, v: &Vec4) -> (r: i64)
    requires
        abs_i(m0 as int) <= MAT_BOUND && abs_i(m1 as int) <= MAT_BOUND
            && abs_i(m2 as int) <= MAT_BOUND && abs_i(m3 as int) <= MAT_BOUND,
        vec4_bounded(*v, VEC_BOUND as int),
    ensures
        r == apply_row_spec(m0 as int, m1 as int, m2 as int, m3 as int, *v),
        abs_i(r as int) <= VEC_BOUND,
{
    proof {
        lemma_mul_bound(m0 as int, v.x as int, MAT_BOUND as int, VEC_BOUND as int);
        lemma_mul_bound(m1 as int, v.y as int, MAT_BOUND as int, VEC_BOUND as int);
        lemma_mul_bound(m2 as int, v.z as int, MAT_BOUND as int, VEC_BOUND as int);
        lemma_mul_bound(m3 as int, v.w as int, MAT_BOUND as int, VEC_BOUND as int);
    }
    let s: i128 = (m0 as i128) * (v.x as i128) + (m1 as i128) * (v.y as i128)
        + (m2 as i128) * (v.z as i128) + (m3 as i128) * (v.w as i128);
    let q: i128 = div_trunc128(s, FP as i128);
    if q > VEC_BOUND as i128 {
        VEC_BOUND
    } else if q < -(VEC_BOUND as i128) {
        -VEC_BOUND
    } else {
        q as i64
    }
}

/// A matrix applied to a homogeneous vector, each coordinate saturated
/// at `VEC_BOUND`.
pub open spec fn mat_vec_spec(m: Mat4, v: Vec4) -> Vec4 {
    Vec4 {
        x: apply_row_spec(m.m00 as int, m.m01 as int, m.m02 as int, m.m03 as int, v) as i64,
        y: apply_row_spec(m.m10 as int, m.m11 as int, m.m12 as int, m.m13 as int, v) as i64,
        z: apply_row_spec(m.m20 as int, m.m21 as int, m.m22 as int, m.m23 as int, v) as i64,
        w: apply_row_spec(m.m30 as int, m.m31 as int, m.m32 as int, m.m33 as int, v) as i64,
    }
}

/// Apply a transform matrix to a homogeneous vector.
pub fn mat_vec(m: &Mat4, v: &Vec4) -> (r: Vec4)
    requires
        mat_bounded(*m, MAT_BOUND as int),
        vec4_bounded(*v, VEC_BOUND as int),
    ensures
        r == mat_vec_spec(*m, *v),
        vec4_bounded(r, VEC_BOUND as int),
{
    Vec4 {
        x: apply_row(m.m00, m.m01, m.m02, m.m03, v),
        y: apply_row(m.m10, m.m11, m.m12, m.m13, v),
        z: apply_row(m.m20, m.m21, m.m22, m.m23, v),
        w: apply_row(m.m30, m.m31, m.m32, m.m33, v),
    }
}

/// The identity transform.
pub fn mat_identity() -> (r: Mat4)
    ensures
        r == identity_spec(),
        mat_bounded(r, FP as int),
{
    Mat4 {
        m00: FP, m01: 0, m02: 0, m03: 0,
        m10: 0, m11: FP, m12: 0, m13: 0,
        m20: 0, m21: 0, m22: FP, m23: 0,
        m30: 0, m31: 0, m32: 0, m33: FP,
    }
}

/// The identity matrix in fixed point.
pub open spec fn identity_spec() -> Mat4 {
    Mat4 {
        m00: FP, m01: 0, m02: 0, m03: 0,
        m10: 0, m11: FP, m12: 0, m13: 0,
        m20: 0, m21: 0, m22: FP, m23: 0,
        m30: 0, m31: 0, m32: 0, m33: FP,
    }
}

/// The squared euclidean length of a vector.
pub open spec fn sq_norm3(v: Vec3) -> int {
    v.x * v.x + v.y * v.y + v.z * v.z
}

/// The euclidean length of a vector, rounded down. A fixed-point vector
/// gives a fixed-point length.
pub open spec fn norm3_spec(v: Vec3) -> int {
    crate::fixed::sqrt_floor(sq_norm3(v) as nat) as int
}

/// The euclidean length of a vector, rounded down.
pub fn norm3(v: &Vec3) -> (r: i64)
    requires
        vec3_bounded(*v, 0x4000_0000int),
    ensures
        r == norm3_spec(*v),
        0 <= r <= 0x1_0000_0000int,
        r * r <= sq_norm3(*v),
        (r + 1) * (r + 1) > sq_norm3(*v),
{
    proof {
        lemma_mul_bound(v.x as int, v.x as int, 0x4000_0000int, 0x4000_0000int);
        lemma_mul_bound(v.y as int, v.y as int, 0x4000_0000int, 0x4000_0000int);
        lemma_mul_bound(v.z as int, v.z as int, 0x4000_0000int, 0x4000_0000int);
        assert(v.x as int * v.x as int >= 0) by (nonlinear_arith);
        assert(v.y as int * v.y as int >= 0) by (nonlinear_arith);
        assert(v.z as int * v.z as int >= 0) by (nonlinear_arith);
    }
    let n: u64 = (v.x * v.x) as u64 + (v.y * v.y) as u64 + (v.z * v.z) as u64;
    let r = crate::fixed::isqrt(n);
    proof {
        assert(r as int <= 0x1_0000_0000int) by (nonlinear_arith)
            requires
                r as int * r as int <= 0x3000_0000_0000_0000int,
                r >= 0,
        ;
    }
    r as i64
}

/// A vector rescaled to unit fixed-point length; the zero vector is
/// returned unchanged.
pub open spec fn normalize3_spec(v: Vec3) -> Vec3 {
    if sq_norm3(v) == 0 {
        v
    } else {
        let len = norm3_spec(v);
        Vec3 {
            x: dt(v.x * (FP as int), len) as i64,
            y: dt(v.y * (FP as int), len) as i64,
            z: dt(v.z * (FP as int), len) as i64,
        }
    }
}

/// Rescale a vector to unit fixed-point length.
pub fn normalize3(v: &Vec3) -> (r: Vec3)
    requires
        vec3_bounded(*v, 0x4000_0000int),
    ensures
        r == normalize3_spec(*v),
        vec3_bounded(r, FP as int),
{
    let len = norm3(v);
    if len == 0 {
        proof {
            assert(v.x as int * v.x as int >= 0) by (nonlinear_arith);
            assert(v.y as int * v.y as int >= 0) by (nonlinear_arith);
            assert(v.z as int * v.z as int >= 0) by (nonlinear_arith);
            assert(sq_norm3(*v) == 0) by (nonlinear_arith)
                requires
                    (0 + 1) * (0 + 1) > sq_norm3(*v),
                    v.x as int * v.x as int >= 0,
                    v.y as int * v.y as int >= 0,
                    v.z as int * v.z as int >= 0,
            ;
            assert(v.x == 0 && v.y == 0 && v.z == 0) by (nonlinear_arith)
                requires
                    sq_norm3(*v) == 0,
                    v.x as int * v.x as int >= 0,
                    v.y as int * v.y as int >= 0,
                    v.z as int * v.z as int >= 0,
                    sq_norm3(*v) == v.x as int * v.x as int + v.y as int * v.y as int + v.z as int
                        * v.z as int,
            ;
        }
        return *v;
    }
    proof {
        assert(v.x as int * v.x as int >= 0) by (nonlinear_arith);
        assert(v.y as int * v.y as int >= 0) by (nonlinear_arith);
        assert(v.z as int * v.z as int >= 0) by (nonlinear_arith);
        assert(sq_norm3(*v) != 0) by (nonlinear_arith)
            requires len * len <= sq_norm3(*v), len >= 1;
        lemma_normalize_coord(v.x as int, len as int, sq_norm3(*v));
        lemma_normalize_coord(v.y as int, len as int, sq_norm3(*v));
        lemma_normalize_coord(v.z as int, len as int, sq_norm3(*v));
    }
    Vec3 {
        x: scale_to_len(v.x, len),
        y: scale_to_len(v.y, len),
        z: scale_to_len(v.z, len),
    }
}

proof fn lemma_normalize_coord(x: int, len: int, sq: int)
    requires
        1 <= len,
        (len + 1) * (len + 1) > sq,
        x * x <= sq,
    ensures
        abs_i(x) <= len,
        abs_i(x * (FP as int)) <= (FP as int) * len,
{
    assert(abs_i(x) <= len) by (nonlinear_arith)
        requires 1 <= len, (len + 1) * (len + 1) > sq, x * x <= sq;
    assert(abs_i(x * (FP as int)) <= (FP as int) * len) by (nonlinear_arith)
        requires abs_i(x) <= len;
}

fn scale_to_len(x: i64, len: i64) -> (r: i64)
    requires
        1 <= len <= 0x1_0000_0000int,
        abs_i(x as int) <= len,
        abs_i(x as int * (FP as int)) <= (FP as int) * (len as int),
    ensures
        r == dt(x as int * (FP as int), len as int),
        abs_i(r as int) <= FP,
{
    proof {
        lemma_mul_bound(x as int, FP as int, 0x1_0000_0000int, FP as int);
        assert((FP as int) * (len as int) == (len as int) * (FP as int)) by (nonlinear_arith);
        lemma_dt_bound(x as int * (FP as int), len as int, FP as int);
    }
    let p: i64 = x * FP;
    div_trunc(p, len)
}

/// The fixed-point dot product of two vectors.
pub open spec fn dot3_spec(a: Vec3, b: Vec3) -> int {
    dt(a.x * b.x + a.y * b.y + a.z * b.z, FP as int)
}

/// Dot product of two fixed-point vectors within the ghost bounds.
pub fn dot3(a: &Vec3, b: &Vec3, Ghost(ab): Ghost<int>, Ghost(bb): Ghost<int>) -> (r: i64)
    requires
        0 < ab,
        0 < bb,
        vec3_bounded(*a, ab),
        vec3_bounded(*b, bb),
        4 * ab * bb <= 0x4000_0000_0000_0000,
    ensures
        r == dot3_spec(*a, *b),
        abs_i(r as int) <= 4 * ab * bb / (FP as int) + 1,
{
    let r = row_col(a.x, a.y, a.z, 0, b.x, b.y, b.z, 0, Ghost(ab), Ghost(bb));
    r
}

/// The fixed-point cross product of two vectors.
pub open spec fn cross3_spec(a: Vec3, b: Vec3) -> Vec3 {
    Vec3 {
        x: dt(a.y * b.z - a.z * b.y, FP as int) as i64,
        y: dt(a.z * b.x - a.x * b.z, FP as int) as i64,
        z: dt(a.x * b.y - a.y * b.x, FP as int) as i64,
    }
}

/// Cross product of two fixed-point vectors within the ghost bounds.
pub fn cross3(a: &Vec3, b: &Vec3, Ghost(ab): Ghost<int>, Ghost(bb): Ghost<int>) -> (r: Vec3)
    requires
        0 < ab,
        0 < bb,
        vec3_bounded(*a, ab),
        vec3_bounded(*b, bb),
        4 * ab * bb <= 0x4000_0000_0000_0000,
    ensures
        r == cross3_spec(*a, *b),
        vec3_bounded(r, 4 * ab * bb / (FP as int) + 1),
{
    proof {
        assert(bb <= 0x4000_0000_0000_0000int) by (nonlinear_arith)
            requires 4 * ab * bb <= 0x4000_0000_0000_0000, 0 < ab, 0 < bb;
    }
    let x = row_col(a.y, a.z, 0, 0, b.z, -b.y, 0, 0, Ghost(ab), Ghost(bb));
    let y = row_col(a.z, a.x, 0, 0, b.x, -b.z, 0, 0, Ghost(ab), Ghost(bb));
    let z = row_col(a.x, a.y, 0, 0, b.y, -b.x, 0, 0, Ghost(ab), Ghost(bb));
    proof {
        assert(a.y as int * b.z as int + a.z as int * (-(b.y as int)) + 0int * 0int + 0int * 0int
            == a.y as int * b.z as int - a.z as int * b.y as int) by (nonlinear_arith);
        assert(a.z as int * b.x as int + a.x as int * (-(b.z as int)) + 0int * 0int + 0int * 0int
            == a.z as int * b.x as int - a.x as int * b.z as int) by (nonlinear_arith);
        assert(a.x as int * b.y as int + a.y as int * (-(b.x as int)) + 0int * 0int + 0int * 0int
            == a.x as int * b.y as int - a.y as int * b.x as int) by (nonlinear_arith);
    }
    Vec3 { x, y, z }
}

} // verus!

//! Pure builders for the four matrices of the transform chain: model,
//! view (look-at), perspective projection, and viewport.

use vstd::prelude::*;
use crate::fixed::{dt, abs_i, div_trunc, fsin, fcos, fsin_spec, fcos_spec, lemma_dt_bound, lemma_mul_bound, FP};
use crate::linalg::{Mat4, Vec3, mat_bounded, vec3_bounded, mat_mul, mat_mul_spec, cross3, cross3_spec, dot3, dot3_spec, normalize3, normalize3_spec, MAT_BOUND};

verus! {

/// Bound on model translations and camera positions fed to the builders.
pub const TRANSLATE_BOUND: i64 = 0x40_0000;

/// Bound on the model scale factor.
pub const SCALE_BOUND: i64 = 0x10_0000;

/// The camera eye point may wander twice as far as the center.
pub const EYE_BOUND: i64 = 0x80_0000;

/// Bound on rotation angles fed to the builders.
pub const ANGLE_BOUND: i64 = 0x100_0000_0000;

/// `1 / tan(fov / 2)` for the fixed 45 degree vertical field of view.
pub const FOCAL_FP: i64 = 158218;

/// The near plane at a tenth of a unit.
pub const NEAR_FP: i64 = 6553;

/// The far plane at a thousand units.
pub const FAR_FP: i64 = 65536000;

/// Rotation about the X axis by a fixed-point angle.
pub open spec fn rotation_x_spec(angle: int) -> Mat4 {
    let s = fsin_spec(angle);
    let c = fcos_spec(angle);
    Mat4 {
        m00: FP, m01: 0, m02: 0, m03: 0,
        m10: 0, m11: c as i64, m12: (-s) as i64, m13: 0,
        m20: 0, m21: s as i64, m22: c as i64, m23: 0,
        m30: 0, m31: 0, m32: 0, m33: FP,
    }
}

/// Rotation about the Y axis by a fixed-point angle.
pub open spec fn rotation_y_spec(angle: int) -> Mat4 {
    let s = fsin_spec(angle);
    let c = fcos_spec(angle);
    Mat4 {
        m00: c as i64, m01: 0, m02: s as i64, m03: 0,
        m10: 0, m11: FP, m12: 0, m13: 0,
        m20: (-s) as i64, m21: 0, m22: c as i64, m23: 0,
        m30: 0, m31: 0, m32: 0, m33: FP,
    }
}

/// Rotation about the Z axis by a fixed-point angle.
pub open spec fn rotation_z_spec(angle: int) -> Mat4 {
    let s = fsin_spec(angle);
    let c = fcos_spec(angle);
    Mat4 {
        m00: c as i64, m01: (-s) as i64, m02: 0, m03: 0,
        m10: s as i64, m11: c as i64, m12: 0, m13: 0,
        m20: 0, m21: 0, m22: FP, m23: 0,
        m30: 0, m31: 0, m32: 0, m33: FP,
    }
}

/// Scale-and-translate matrix: uniform scale on the diagonal, the
/// translation in the last column.
pub open spec fn scale_translate_spec(translation: Vec3, scale: i64) -> Mat4 {
    Mat4 {
        m00: scale, m01: 0, m02: 0, m03: translation.x,
        m10: 0, m11: scale, m12: 0, m13: translation.y,
        m20: 0, m21: 0, m22: scale, m23: translation.z,
        m30: 0, m31: 0, m32: 0, m33: FP,
    }
}

/// The model matrix: rotation applied first (Z then Y then X composed
/// as `Rz * Ry * Rx`), then scaled and translated into world space.
pub open spec fn model_matrix_spec(translation: Vec3, scale: i64, rotation: Vec3) -> Mat4 {
    let rot = mat_mul_spec(
        mat_mul_spec(rotation_z_spec(rotation.z as int), rotation_y_spec(rotation.y as int)),
        rotation_x_spec(rotation.x as int),
    );
    mat_mul_spec(scale_translate_spec(translation, scale), rot)
}

fn rotation_x(angle: i64) -> (m: Mat4)
    requires
        abs_i(angle as int) <= ANGLE_BOUND,
    ensures
        m == rotation_x_spec(angle as int),
        mat_bounded(m, FP as int),
{
    let s = fsin(angle);
    let c = fcos(angle);
    Mat4 {
        m00: FP, m01: 0, m02: 0, m03: 0,
        m10: 0, m11: c, m12: -s, m13: 0,
        m20: 0, m21: s, m22: c, m23: 0,
        m30: 0, m31: 0, m32: 0, m33: FP,
    }
}

fn rotation_y(angle: i64) -> (m: Mat4)
    requires
        abs_i(angle as int) <= ANGLE_BOUND,
    ensures
        m == rotation_y_spec(angle as int),
        mat_bounded(m, FP as int),
{
    let s = fsin(angle);
    let c = fcos(angle);
    Mat4 {
        m00: c, m01: 0, m02: s, m03: 0,
        m10: 0, m11: FP, m12: 0, m13: 0,
        m20: -s, m21: 0, m22: c, m23: 0,
        m30: 0, m31: 0, m32: 0, m33: FP,
    }
}

fn rotation_z(angle: i64) -> (m: Mat4)
    requires
        abs_i(angle as int) <= ANGLE_BOUND,
    ensures
        m == rotation_z_spec(angle as int),
        mat_bounded(m, FP as int),
{
    let s = fsin(angle);
    let c = fcos(angle);
    Mat4 {
        m00: c, m01: -s, m02: 0, m03: 0,
        m10: s, m11: c, m12: 0, m13: 0,
        m20: 0, m21: 0, m22: FP, m23: 0,
        m30: 0, m31: 0, m32: 0, m33: FP,
    }
}

/// Build the model matrix from translation, uniform scale, and the
/// three rotation angles.
pub fn create_model_matrix(translation: Vec3, scale: i64, rotation: Vec3) -> (m: Mat4)
    requires
        vec3_bounded(translation, TRANSLATE_BOUND as int),
        0 <= scale <= SCALE_BOUND,
        vec3_bounded(rotation, ANGLE_BOUND as int),
    ensures
        m == model_matrix_spec(translation, scale, rotation),
        mat_bounded(m, MAT_BOUND as int),
{
    let rx = rotation_x(rotation.x);
    let ry = rotation_y(rotation.y);
    let rz = rotation_z(rotation.z);
    let rzy = mat_mul(&rz, &ry, Ghost(65536int), Ghost(65536int));
    let rot = mat_mul(&rzy, &rx, Ghost(262145int), Ghost(65536int));
    let tr = Mat4 {
        m00: scale, m01: 0, m02: 0, m03: translation.x,
        m10: 0, m11: scale, m12: 0, m13: translation.y,
        m20: 0, m21: 0, m22: scale, m23: translation.z,
        m30: 0, m31: 0, m32: 0, m33: FP,
    };
    mat_mul(&tr, &rot, Ghost(0x40_0000int), Ghost(1048581int))
}

/// The look-at view matrix: orthonormal-ish rows from the forward,
/// side and up directions, translated by the eye point.
pub open spec fn view_matrix_spec(eye: Vec3, center: Vec3, up: Vec3) -> Mat4 {
    let dir = Vec3 {
        x: (center.x - eye.x) as i64,
        y: (center.y - eye.y) as i64,
        z: (center.z - eye.z) as i64,
    };
    let f = normalize3_spec(dir);
    let s = normalize3_spec(cross3_spec(f, up));
    let u = cross3_spec(s, f);
    Mat4 {
        m00: s.x, m01: s.y, m02: s.z, m03: (-dot3_spec(s, eye)) as i64,
        m10: u.x, m11: u.y, m12: u.z, m13: (-dot3_spec(u, eye)) as i64,
        m20: (-f.x) as i64, m21: (-f.y) as i64, m22: (-f.z) as i64, m23: dot3_spec(f, eye) as i64,
        m30: 0, m31: 0, m32: 0, m33: FP,
    }
}

/// Build the view matrix from eye, look-at center and up.
pub fn create_view_matrix(eye: Vec3, center: Vec3, up: Vec3) -> (m: Mat4)
    requires
        vec3_bounded(eye, EYE_BOUND as int),
        vec3_bounded(center, TRANSLATE_BOUND as int),
        vec3_bounded(up, TRANSLATE_BOUND as int),
    ensures
        m == view_matrix_spec(eye, center, up),
        mat_bounded(m, MAT_BOUND as int),
{
    let dir = Vec3 { x: center.x - eye.x, y: center.y - eye.y, z: center.z - eye.z };
    let f = normalize3(&dir);
    let sc = cross3(&f, &up, Ghost(65536int), Ghost(0x40_0000int));
    let s = normalize3(&sc);
    let u = cross3(&s, &f, Ghost(65536int), Ghost(65536int));
    let tx = dot3(&s, &eye, Ghost(65536int), Ghost(0x80_0000int));
    let ty = dot3(&u, &eye, Ghost(262145int), Ghost(0x80_0000int));
    let tz = dot3(&f, &eye, Ghost(65536int), Ghost(0x80_0000int));
    Mat4 {
        m00: s.x, m01: s.y, m02: s.z, m03: -tx,
        m10: u.x, m11: u.y, m12: u.z, m13: -ty,
        m20: -f.x, m21: -f.y, m22: -f.z, m23: tz,
        m30: 0, m31: 0, m32: 0, m33: FP,
    }
}

/// The perspective projection for the fixed 45 degree field of view,
/// near plane `NEAR_FP` and far plane `FAR_FP`.
pub open spec fn perspective_matrix_spec(width: int, height: int) -> Mat4 {
    Mat4 {
        m00: dt(FOCAL_FP as int * height, width) as i64, m01: 0, m02: 0, m03: 0,
        m10: 0, m11: FOCAL_FP, m12: 0, m13: 0,
        m20: 0, m21: 0,
        m22: (-dt((FAR_FP + NEAR_FP) as int * (FP as int), (FAR_FP - NEAR_FP) as int)) as i64,
        m23: (-dt(2 * dt(FAR_FP as int * (NEAR_FP as int), FP as int) * (FP as int), (FAR_FP - NEAR_FP) as int)) as i64,
        m30: 0, m31: 0, m32: (-(FP as int)) as i64, m33: 0,
    }
}

/// Build the perspective matrix for a window of the given size.
pub fn create_perspective_matrix(width: i64, height: i64) -> (m: Mat4)
    requires
        1 <= width <= 2048,
        1 <= height <= 2048,
    ensures
        m == perspective_matrix_spec(width as int, height as int),
        mat_bounded(m, MAT_BOUND as int),
{
    proof {
        assert(abs_i(FOCAL_FP as int * height as int) <= 324030464 * width as int)
            by (nonlinear_arith)
            requires 1 <= width <= 2048, 1 <= height <= 2048;
        lemma_dt_bound(FOCAL_FP as int * height as int, width as int, 324030464int);
    }
    let m00 = div_trunc(FOCAL_FP * height, width);
    let zdiff: i64 = FAR_FP - NEAR_FP;
    let a22 = div_trunc((FAR_FP + NEAR_FP) * FP, zdiff);
    let fn_fp = div_trunc(FAR_FP * NEAR_FP, FP);
    let a23 = div_trunc(2 * fn_fp * FP, zdiff);
    proof {
        lemma_dt_bound((FAR_FP + NEAR_FP) as int * (FP as int), zdiff as int, 0x2_0000int);
        lemma_dt_bound(FAR_FP as int * (NEAR_FP as int), FP as int, 0x1_0000_0000int);
        assert(FAR_FP as int * (NEAR_FP as int) == 429457408000int) by (nonlinear_arith);
        assert(65536int * 6553000int == 429457408000int) by (nonlinear_arith);
        vstd::arithmetic::div_mod::lemma_div_multiples_vanish(6553000int, 65536int);
        assert(dt(FAR_FP as int * (NEAR_FP as int), FP as int) == 6553000int);
        lemma_dt_bound(
            2 * dt(FAR_FP as int * (NEAR_FP as int), FP as int) * (FP as int),
            zdiff as int,
            0x2_0000int,
        );
    }
    Mat4 {
        m00, m01: 0, m02: 0, m03: 0,
        m10: 0, m11: FOCAL_FP, m12: 0, m13: 0,
        m20: 0, m21: 0, m22: -a22, m23: -a23,
        m30: 0, m31: 0, m32: -FP, m33: 0,
    }
}

/// The viewport matrix: normalized device coordinates to pixels, the Y
/// axis flipped, depth passed through.
pub open spec fn viewport_matrix_spec(width: int, height: int) -> Mat4 {
    Mat4 {
        m00: (width * 0x8000) as i64, m01: 0, m02: 0, m03: (width * 0x8000) as i64,
        m10: 0, m11: (-(height * 0x8000)) as i64, m12: 0, m13: (height * 0x8000) as i64,
        m20: 0, m21: 0, m22: FP, m23: 0,
        m30: 0, m31: 0, m32: 0, m33: FP,
    }
}

/// Build the viewport matrix for a framebuffer of the given size.
pub fn create_viewport_matrix(width: i64, height: i64) -> (m: Mat4)
    requires
        0 <= width <= 2048,
        0 <= height <= 2048,
    ensures
        m == viewport_matrix_spec(width as int, height as int),
        mat_bounded(m, MAT_BOUND as int),
{
    let wh = width * 0x8000;
    let hh = height * 0x8000;
    Mat4 {
        m00: wh, m01: 0, m02: 0, m03: wh,
        m10: 0, m11: -hh, m12: 0, m13: hh,
        m20: 0, m21: 0, m22: FP, m23: 0,
        m30: 0, m31: 0, m32: 0, m33: FP,
    }
}

} // verus!

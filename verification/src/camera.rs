//! The orbiting camera: eye, look-at center and up vector. Orbit and
//! zoom move the eye relative to the center; the up vector is never
//! re-derived.

use vstd::prelude::*;
use crate::fixed::{dt, abs_i, clamp, clamp_i, div_trunc, fsin, fcos, fsin_spec, fcos_spec, lemma_mul_bound, FP};
use crate::linalg::{Vec3, vec3_bounded, norm3, norm3_spec, sq_norm3};

verus! {

/// Bound on the center point and on the eye-to-center offset.
pub const CAM_BOUND: i64 = 0x40_0000;

/// The eye may sit at most twice the center bound from the origin.
pub const CAM_EYE_BOUND: i64 = 0x80_0000;

/// Bound on orbit angles.
pub const CAM_ANGLE_BOUND: i64 = 0x100_0000_0000;

/// Bound on one zoom step.
pub const CAM_ZOOM_BOUND: i64 = 0x10_0000;

/// Eye, look-at center and up vector.
#[derive(Clone, Copy, PartialEq, Eq, Structural, Debug)]
pub struct Camera {
    pub eye: Vec3,
    pub center: Vec3,
    pub up: Vec3,
}

/// The eye after one incremental orbit: the eye-to-center offset is
/// rotated about the Y axis by the yaw, then about the X axis by the
/// pitch, each coordinate saturated at `CAM_BOUND`.
pub open spec fn orbit_spec(cam: Camera, dyaw: int, dpitch: int) -> Camera {
    let sy = fsin_spec(dyaw);
    let cy = fcos_spec(dyaw);
    let sp = fsin_spec(dpitch);
    let cp = fcos_spec(dpitch);
    let ox = cam.eye.x - cam.center.x;
    let oy = cam.eye.y - cam.center.y;
    let oz = cam.eye.z - cam.center.z;
    let x1 = dt(ox * cy + oz * sy, FP as int);
    let z1 = dt(oz * cy - ox * sy, FP as int);
    let y2 = dt(oy * cp - z1 * sp, FP as int);
    let z2 = dt(oy * sp + z1 * cp, FP as int);
    Camera {
        eye: Vec3 {
            x: (cam.center.x + clamp_i(x1, CAM_BOUND as int)) as i64,
            y: (cam.center.y + clamp_i(y2, CAM_BOUND as int)) as i64,
            z: (cam.center.z + clamp_i(z2, CAM_BOUND as int)) as i64,
        },
        center: cam.center,
        up: cam.up,
    }
}

/// The eye after one zoom step along the eye-to-center direction; a
/// camera already at its center does not move.
pub open spec fn zoom_spec(cam: Camera, delta: int) -> Camera {
    let dx = cam.center.x - cam.eye.x;
    let dy = cam.center.y - cam.eye.y;
    let dz = cam.center.z - cam.eye.z;
    let len = norm3_spec(Vec3 { x: dx as i64, y: dy as i64, z: dz as i64 });
    if len == 0 {
        cam
    } else {
        Camera {
            eye: Vec3 {
                x: clamp_i(cam.eye.x + clamp_i(dt(dx * delta, len), CAM_BOUND as int), CAM_EYE_BOUND as int) as i64,
                y: clamp_i(cam.eye.y + clamp_i(dt(dy * delta, len), CAM_BOUND as int), CAM_EYE_BOUND as int) as i64,
                z: clamp_i(cam.eye.z + clamp_i(dt(dz * delta, len), CAM_BOUND as int), CAM_EYE_BOUND as int) as i64,
            },
            center: cam.center,
            up: cam.up,
        }
    }
}

/// Center and eye translated together, each coordinate saturated.
pub open spec fn move_center_spec(cam: Camera, delta: Vec3) -> Camera {
    Camera {
        eye: Vec3 {
            x: clamp_i(cam.eye.x + delta.x, CAM_EYE_BOUND as int) as i64,
            y: clamp_i(cam.eye.y + delta.y, CAM_EYE_BOUND as int) as i64,
            z: clamp_i(cam.eye.z + delta.z, CAM_EYE_BOUND as int) as i64,
        },
        center: Vec3 {
            x: clamp_i(cam.center.x + delta.x, CAM_BOUND as int) as i64,
            y: clamp_i(cam.center.y + delta.y, CAM_BOUND as int) as i64,
            z: clamp_i(cam.center.z + delta.z, CAM_BOUND as int) as i64,
        },
        up: cam.up,
    }
}

impl Camera {
    /// The camera's points stay within their bounds.
    pub open spec fn wf(&self) -> bool {
        &&& vec3_bounded(self.eye, CAM_EYE_BOUND as int)
        &&& vec3_bounded(self.center, CAM_BOUND as int)
        &&& vec3_bounded(self.up, CAM_BOUND as int)
    }

    /// A camera from its three vectors.
    pub fn new(eye: Vec3, center: Vec3, up: Vec3) -> (cam: Camera)
        requires
            vec3_bounded(eye, CAM_EYE_BOUND as int),
            vec3_bounded(center, CAM_BOUND as int),
            vec3_bounded(up, CAM_BOUND as int),
        ensures
            cam == (Camera { eye, center, up }),
            cam.wf(),
    {
        Camera { eye, center, up }
    }

    /// Orbit the eye around the center by incremental yaw and pitch.
    pub fn orbit(&mut self, dyaw: i64, dpitch: i64)
        requires
            old(self).wf(),
            abs_i(dyaw as int) <= CAM_ANGLE_BOUND,
            abs_i(dpitch as int) <= CAM_ANGLE_BOUND,
        ensures
            *final(self) == orbit_spec(*old(self), dyaw as int, dpitch as int),
            final(self).wf(),
    {
        let sy = fsin(dyaw);
        let cy = fcos(dyaw);
        let sp = fsin(dpitch);
        let cp = fcos(dpitch);
        let ox = self.eye.x - self.center.x;
        let oy = self.eye.y - self.center.y;
        let oz = self.eye.z - self.center.z;
        proof {
            lemma_mul_bound(ox as int, cy as int, 0x100_0000int, FP as int);
            lemma_mul_bound(oz as int, sy as int, 0x100_0000int, FP as int);
            lemma_mul_bound(oz as int, cy as int, 0x100_0000int, FP as int);
            lemma_mul_bound(ox as int, sy as int, 0x100_0000int, FP as int);
        }
        let x1 = div_trunc(ox * cy + oz * sy, FP);
        let z1 = div_trunc(oz * cy - ox * sy, FP);
        proof {
            crate::fixed::lemma_dt_bound(
                ox as int * cy as int + oz as int * sy as int,
                FP as int,
                0x200_0000int,
            );
            crate::fixed::lemma_dt_bound(
                oz as int * cy as int - ox as int * sy as int,
                FP as int,
                0x200_0000int,
            );
            lemma_mul_bound(oy as int, cp as int, 0x100_0000int, FP as int);
            lemma_mul_bound(z1 as int, sp as int, 0x200_0000int, FP as int);
            lemma_mul_bound(oy as int, sp as int, 0x100_0000int, FP as int);
            lemma_mul_bound(z1 as int, cp as int, 0x200_0000int, FP as int);
        }
        let y2 = div_trunc(oy * cp - z1 * sp, FP);
        let z2 = div_trunc(oy * sp + z1 * cp, FP);
        self.eye = Vec3 {
            x: self.center.x + clamp(x1, CAM_BOUND),
            y: self.center.y + clamp(y2, CAM_BOUND),
            z: self.center.z + clamp(z2, CAM_BOUND),
        };
    }

    /// Move the eye toward (or away from) the center by one step.
    pub fn zoom(&mut self, delta: i64)
        requires
            old(self).wf(),
            abs_i(delta as int) <= CAM_ZOOM_BOUND,
        ensures
            *final(self) == zoom_spec(*old(self), delta as int),
            final(self).wf(),
    {
        let dir = Vec3 {
            x: self.center.x - self.eye.x,
            y: self.center.y - self.eye.y,
            z: self.center.z - self.eye.z,
        };
        let len = norm3(&dir);
        if len == 0 {
            return ;
        }
        proof {
            lemma_mul_bound(dir.x as int, delta as int, 0x100_0000int, CAM_ZOOM_BOUND as int);
            lemma_mul_bound(dir.y as int, delta as int, 0x100_0000int, CAM_ZOOM_BOUND as int);
            lemma_mul_bound(dir.z as int, delta as int, 0x100_0000int, CAM_ZOOM_BOUND as int);
        }
        let sx = clamp(div_trunc(dir.x * delta, len), CAM_BOUND);
        let sy = clamp(div_trunc(dir.y * delta, len), CAM_BOUND);
        let sz = clamp(div_trunc(dir.z * delta, len), CAM_BOUND);
        self.eye = Vec3 {
            x: clamp(self.eye.x + sx, CAM_EYE_BOUND),
            y: clamp(self.eye.y + sy, CAM_EYE_BOUND),
            z: clamp(self.eye.z + sz, CAM_EYE_BOUND),
        };
    }

    /// Translate the center, carrying the eye along to keep the offset.
    pub fn move_center(&mut self, delta: Vec3)
        requires
            old(self).wf(),
            vec3_bounded(delta, CAM_BOUND as int),
        ensures
            *final(self) == move_center_spec(*old(self), delta),
            final(self).wf(),
    {
        self.eye = Vec3 {
            x: clamp(self.eye.x + delta.x, CAM_EYE_BOUND),
            y: clamp(self.eye.y + delta.y, CAM_EYE_BOUND),
            z: clamp(self.eye.z + delta.z, CAM_EYE_BOUND),
        };
        self.center = Vec3 {
            x: clamp(self.center.x + delta.x, CAM_BOUND),
            y: clamp(self.center.y + delta.y, CAM_BOUND),
            z: clamp(self.center.z + delta.z, CAM_BOUND),
        };
    }
}

} // verus!

//! The records that flow through the pipeline: model-space vertices,
//! screen-space vertices leaving the vertex stage, and the fragments the
//! rasterizer emits for covered pixels.

use vstd::prelude::*;
use crate::fixed::{abs_i, FP};
use crate::linalg::{Vec2, Vec3, vec3_bounded};

verus! {

/// Screen coordinates leaving the vertex stage are clamped to this
/// extent, an integer pixel bound independent of any one viewport.
pub const EXTENT: i64 = 16384;

/// Magnitude bound on model-space position coordinates.
pub const POS_BOUND: i64 = 0x8_0000;

/// Magnitude bound on normal coordinates (a unit-ish vector).
pub const NORMAL_BOUND: i64 = 0x2_0000;

/// Magnitude bound on texture coordinates.
pub const TEX_BOUND: i64 = 0x10_0000;

/// Magnitude bound on interpolated depth values.
pub const DEPTH_BOUND: i64 = 0x10_0000;

/// A model-space vertex: position, normal and texture coordinate, all
/// in 16.16 fixed point.
#[derive(Clone, Copy, PartialEq, Eq, Structural, Debug)]
pub struct Vertex {
    pub position: Vec3,
    pub normal: Vec3,
    pub tex_coords: Vec2,
}

impl Vertex {
    /// The coordinate bounds every mesh vertex obeys.
    pub open spec fn wf(&self) -> bool {
        &&& vec3_bounded(self.position, POS_BOUND as int)
        &&& vec3_bounded(self.normal, NORMAL_BOUND as int)
        &&& abs_i(self.tex_coords.x as int) <= TEX_BOUND
        &&& abs_i(self.tex_coords.y as int) <= TEX_BOUND
    }

    /// A vertex from its three attributes.
    pub fn new(position: Vec3, normal: Vec3, tex_coords: Vec2) -> (v: Vertex)
        ensures
            v == (Vertex { position, normal, tex_coords }),
    {
        Vertex { position, normal, tex_coords }
    }
}

/// A vertex after the vertex stage: integer pixel coordinates, a
/// fixed-point depth, and interpolation-ready attributes.
#[derive(Clone, Copy, PartialEq, Eq, Structural, Debug)]
pub struct ScreenVertex {
    pub x: i64,
    pub y: i64,
    pub depth: i64,
    pub normal: Vec3,
    pub tex_coords: Vec2,
    pub intensity: i64,
}

impl ScreenVertex {
    /// The bounds the vertex stage guarantees of its output.
    pub open spec fn wf(&self) -> bool {
        &&& abs_i(self.x as int) <= EXTENT
        &&& abs_i(self.y as int) <= EXTENT
        &&& abs_i(self.depth as int) <= DEPTH_BOUND
        &&& vec3_bounded(self.normal, NORMAL_BOUND as int)
        &&& abs_i(self.tex_coords.x as int) <= TEX_BOUND
        &&& abs_i(self.tex_coords.y as int) <= TEX_BOUND
        &&& 0 <= self.intensity <= FP
    }
}

/// A candidate pixel write: one covered pixel with its interpolated
/// depth and attributes, consumed by a shader and then discarded.
#[derive(Clone, Copy, PartialEq, Eq, Structural, Debug)]
pub struct Fragment {
    pub x: i64,
    pub y: i64,
    pub depth: i64,
    pub normal: Vec3,
    pub tex_coords: Vec2,
    pub intensity: i64,
}

impl Fragment {
    /// The bounds the rasterizer guarantees of every emitted fragment.
    pub open spec fn wf(&self) -> bool {
        &&& 0 <= self.x <= EXTENT
        &&& 0 <= self.y <= EXTENT
        &&& abs_i(self.depth as int) <= DEPTH_BOUND
        &&& vec3_bounded(self.normal, NORMAL_BOUND as int)
        &&& abs_i(self.tex_coords.x as int) <= TEX_BOUND
        &&& abs_i(self.tex_coords.y as int) <= TEX_BOUND
        &&& 0 <= self.intensity <= FP
    }
}

} // verus!

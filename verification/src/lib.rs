//! A software 3D rendering pipeline on fixed-point arithmetic: vertex
//! transformation, barycentric triangle rasterization with depth testing,
//! procedural noise shading, and a depth-tested framebuffer.

pub mod color;
pub mod fixed;
pub mod framebuffer;
pub mod linalg;
pub mod camera;
pub mod noise;
pub mod pipeline;
pub mod shaders;
pub mod transform;
pub mod triangle;
pub mod vertex;

use vstd::prelude::*;

verus! {

} // verus!

//! Per-frame uniform data handed to the shader: the camera's view and
//! projection matrices, carried as 32-bit patterns of the scene's scalar
//! values. This layer never interprets the entries; deriving them (matrix
//! inversion, projection construction) is the scene layer's business.

use vstd::prelude::*;

verus! {

/// Holds uniform data that will be passed to the shader.
pub struct Uniforms {
    /// World-to-camera matrix (the inverse of the camera's world transform),
    /// sixteen entries in column-major order.
    pub camera_view: Vec<u32>,
    /// Projection matrix, sixteen entries in column-major order.
    pub camera_projection: Vec<u32>,
}

impl Uniforms {
    /// Both matrices have exactly sixteen entries.
    pub open spec fn wf(self) -> bool {
        &&& self.camera_view@.len() == 16
        &&& self.camera_projection@.len() == 16
    }

    /// Creates a new `Uniforms` with the camera view and projection. The
    /// caller supplies `camera_view` already inverted (world-to-camera).
    pub fn new(camera_view: Vec<u32>, camera_projection: Vec<u32>) -> (r: Self)
        requires
            camera_view@.len() == 16,
            camera_projection@.len() == 16,
        ensures
            r.wf(),
            r.camera_view == camera_view,
            r.camera_projection == camera_projection,
    {
        Uniforms { camera_view, camera_projection }
    }
}

} // verus!

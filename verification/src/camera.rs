//! What the pipeline reads of a camera.

use vstd::prelude::*;
use crate::math::{Mat4, Vec3};

verus! {

/// A camera: where the eye is, and its view and projection matrices.
#[derive(Clone, Copy, Debug, PartialEq, Eq, Structural)]
pub struct Camera {
    pub position: Vec3,
    pub view: Mat4,
    pub projection: Mat4,
}

impl Camera {
    pub fn new(position: Vec3, view: Mat4, projection: Mat4) -> (camera: Camera)
        ensures
            camera == (Camera { position, view, projection }),
    {
        Camera { position, view, projection }
    }

    /// The position of the eye.
    pub fn position(&self) -> (p: Vec3)
        ensures
            p == self.position,
    {
        self.position
    }

    /// The view matrix.
    pub fn get_view(&self) -> (m: &Mat4)
        ensures
            *m == self.view,
    {
        &self.view
    }

    /// The projection matrix.
    pub fn get_projection(&self) -> (m: &Mat4)
        ensures
            *m == self.projection,
    {
        &self.projection
    }
}

} // verus!

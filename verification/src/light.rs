//! The four kinds of light. A light is owned by the caller; the pipeline
//! reads it when it is asked to shine it and keeps nothing of it.

use vstd::prelude::*;
use crate::camera::Camera;
use crate::math::{Scalar, Vec3};
use crate::texture::Texture;

verus! {

/// The kind of a light, as the light-pass shader tells them apart.
#[derive(Clone, Copy, Debug, PartialEq, Eq, Structural)]
pub enum LightType {
    Ambient,
    Directional,
    Point,
    Spot,
}

impl LightType {
    /// The number by which the shader knows this kind of light.
    pub open spec fn spec_discriminant(self) -> i32 {
        match self {
            LightType::Ambient => 0,
            LightType::Directional => 1,
            LightType::Point => 2,
            LightType::Spot => 3,
        }
    }

    /// The number by which the shader knows this kind of light.
    pub fn discriminant(&self) -> (d: i32)
        ensures
            d == self.spec_discriminant(),
    {
        match self {
            LightType::Ambient => 0,
            LightType::Directional => 1,
            LightType::Point => 2,
            LightType::Spot => 3,
        }
    }
}

/// What every light has: a colour and an intensity.
#[derive(Clone, Copy, Debug, PartialEq, Eq, Structural)]
pub struct Base {
    pub color: Vec3,
    pub intensity: Scalar,
}

/// How the light of a point or spot light fades with distance.
#[derive(Clone, Copy, Debug, PartialEq, Eq, Structural)]
pub struct Attenuation {
    pub constant: Scalar,
    pub linear: Scalar,
    pub exp: Scalar,
}

/// The shadow of a light: the camera that looks along the light, and the
/// depth map that was rendered through it.
#[derive(Clone, Copy, Debug, PartialEq, Eq, Structural)]
pub struct Shadow {
    pub camera: Camera,
    pub map: Texture,
}

/// Light that reaches every surface alike.
#[derive(Clone, Copy, Debug, PartialEq, Eq, Structural)]
pub struct AmbientLight {
    pub base: Base,
}

/// Light from infinitely far away, along one direction.
#[derive(Clone, Copy, Debug, PartialEq, Eq, Structural)]
pub struct DirectionalLight {
    pub base: Base,
    pub direction: Vec3,
    pub shadow: Option<Shadow>,
}

/// Light from one point, in all directions.
#[derive(Clone, Copy, Debug, PartialEq, Eq, Structural)]
pub struct PointLight {
    pub base: Base,
    pub position: Vec3,
    pub attenuation: Attenuation,
}

/// Light from one point, within a cone around one direction. The cutoff is
/// the half angle of the cone, in radians.
#[derive(Clone, Copy, Debug, PartialEq, Eq, Structural)]
pub struct SpotLight {
    pub base: Base,
    pub position: Vec3,
    pub direction: Vec3,
    pub attenuation: Attenuation,
    pub cutoff: Scalar,
    pub shadow: Option<Shadow>,
}

} // verus!

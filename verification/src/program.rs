//! The light-pass shader program: its name on the GPU, the uniforms that
//! the pipeline sets on it, and the values that a uniform can take.

use vstd::prelude::*;
use crate::command::Command;
use crate::math::{Mat4, Scalar, Vec3};

verus! {

/// What the host reports when a program cannot be built or used.
#[derive(Debug, PartialEq, Eq)]
pub enum Error {
    FailedToCompileShader { message: String },
    FailedToLinkProgram { message: String },
    FailedToFindUniform { message: String },
}

/// The uniforms of the light-pass program.
#[derive(Clone, Copy, Debug, PartialEq, Eq, Structural)]
pub enum Uniform {
    ColorMap,
    PositionMap,
    NormalMap,
    SurfaceParametersMap,
    DepthMap,
    EyePosition,
    LightType,
    ShadowMvp,
    ShadowMap,
    AmbientColor,
    AmbientIntensity,
    DirectionalDirection,
    DirectionalColor,
    DirectionalIntensity,
    PointPosition,
    PointColor,
    PointIntensity,
    PointAttenuationConstant,
    PointAttenuationLinear,
    PointAttenuationExp,
    SpotPosition,
    SpotDirection,
    SpotColor,
    SpotIntensity,
    SpotAttenuationConstant,
    SpotAttenuationLinear,
    SpotAttenuationExp,
    SpotCutoff,
}

impl Uniform {
    /// The name under which the shader source declares this uniform.
    pub open spec fn wire_name(self) -> Seq<char> {
        match self {
            Uniform::ColorMap => "colorMap"@,
            Uniform::PositionMap => "positionMap"@,
            Uniform::NormalMap => "normalMap"@,
            Uniform::SurfaceParametersMap => "surfaceParametersMap"@,
            Uniform::DepthMap => "depthMap"@,
            Uniform::EyePosition => "eyePosition"@,
            Uniform::LightType => "lightType"@,
            Uniform::ShadowMvp => "shadowMVP"@,
            Uniform::ShadowMap => "shadowMap"@,
            Uniform::AmbientColor => "ambientLight.base.color"@,
            Uniform::AmbientIntensity => "ambientLight.base.intensity"@,
            Uniform::DirectionalDirection => "directionalLight.direction"@,
            Uniform::DirectionalColor => "directionalLight.base.color"@,
            Uniform::DirectionalIntensity => "directionalLight.base.intensity"@,
            Uniform::PointPosition => "pointLight.position"@,
            Uniform::PointColor => "pointLight.base.color"@,
            Uniform::PointIntensity => "pointLight.base.intensity"@,
            Uniform::PointAttenuationConstant => "pointLight.attenuation.constant"@,
            Uniform::PointAttenuationLinear => "pointLight.attenuation.linear"@,
            Uniform::PointAttenuationExp => "pointLight.attenuation.exp"@,
            Uniform::SpotPosition => "spotLight.position"@,
            Uniform::SpotDirection => "spotLight.direction"@,
            Uniform::SpotColor => "spotLight.base.color"@,
            Uniform::SpotIntensity => "spotLight.base.intensity"@,
            Uniform::SpotAttenuationConstant => "spotLight.attenuation.constant"@,
            Uniform::SpotAttenuationLinear => "spotLight.attenuation.linear"@,
            Uniform::SpotAttenuationExp => "spotLight.attenuation.exp"@,
            Uniform::SpotCutoff => "spotLight.cutoff"@,
        }
    }

    /// The name under which the shader source declares this uniform.
    pub fn name(&self) -> (name: &'static str)
        ensures
            name@ == self.wire_name(),
    {
        match self {
            Uniform::ColorMap => "colorMap",
            Uniform::PositionMap => "positionMap",
            Uniform::NormalMap => "normalMap",
            Uniform::SurfaceParametersMap => "surfaceParametersMap",
            Uniform::DepthMap => "depthMap",
            Uniform::EyePosition => "eyePosition",
            Uniform::LightType => "lightType",
            Uniform::ShadowMvp => "shadowMVP",
            Uniform::ShadowMap => "shadowMap",
            Uniform::AmbientColor => "ambientLight.base.color",
            Uniform::AmbientIntensity => "ambientLight.base.intensity",
            Uniform::DirectionalDirection => "directionalLight.direction",
            Uniform::DirectionalColor => "directionalLight.base.color",
            Uniform::DirectionalIntensity => "directionalLight.base.intensity",
            Uniform::PointPosition => "pointLight.position",
            Uniform::PointColor => "pointLight.base.color",
            Uniform::PointIntensity => "pointLight.base.intensity",
            Uniform::PointAttenuationConstant => "pointLight.attenuation.constant",
            Uniform::PointAttenuationLinear => "pointLight.attenuation.linear",
            Uniform::PointAttenuationExp => "pointLight.attenuation.exp",
            Uniform::SpotPosition => "spotLight.position",
            Uniform::SpotDirection => "spotLight.direction",
            Uniform::SpotColor => "spotLight.base.color",
            Uniform::SpotIntensity => "spotLight.base.intensity",
            Uniform::SpotAttenuationConstant => "spotLight.attenuation.constant",
            Uniform::SpotAttenuationLinear => "spotLight.attenuation.linear",
            Uniform::SpotAttenuationExp => "spotLight.attenuation.exp",
            Uniform::SpotCutoff => "spotLight.cutoff",
        }
    }
}

/// The value that a uniform is set to. `Cosine` and `Product` name a result
/// that the host computes before it uploads the value.
#[derive(Clone, Copy, Debug, PartialEq, Eq, Structural)]
pub enum UniformValue {
    /// An integer.
    Int(i32),
    /// A scalar, uploaded as it is.
    Float(Scalar),
    /// The cosine of an angle given in radians.
    Cosine(Scalar),
    /// A vector of three scalars.
    Vec3(Vec3),
    /// A matrix, uploaded as it is.
    Mat4(Mat4),
    /// The matrix product of the three matrices, in this order.
    Product(Mat4, Mat4, Mat4),
}

/// A shader program that the host has compiled and linked.
#[derive(Clone, Copy, Debug, PartialEq, Eq, Structural)]
pub struct Program {
    /// The name that the GPU gave to the program.
    pub id: u32,
}

impl Program {
    /// Describes the linked program named `id`.
    pub fn new(id: u32) -> (p: Program)
        ensures
            p.id == id,
    {
        Program { id }
    }

    /// The command that sets `uniform` to `value`.
    pub open spec fn set(self, uniform: Uniform, value: UniformValue) -> Command {
        Command::SetUniform { program: self.id, uniform, value }
    }

    /// The command that sets an integer uniform.
    pub fn add_uniform_int(&self, uniform: Uniform, value: i32) -> (c: Command)
        ensures
            c == self.set(uniform, UniformValue::Int(value)),
    {
        Command::SetUniform { program: self.id, uniform, value: UniformValue::Int(value) }
    }

    /// The command that sets a scalar uniform.
    pub fn add_uniform_float(&self, uniform: Uniform, value: Scalar) -> (c: Command)
        ensures
            c == self.set(uniform, UniformValue::Float(value)),
    {
        Command::SetUniform { program: self.id, uniform, value: UniformValue::Float(value) }
    }

    /// The command that sets a scalar uniform to the cosine of `angle`.
    pub fn add_uniform_cosine(&self, uniform: Uniform, angle: Scalar) -> (c: Command)
        ensures
            c == self.set(uniform, UniformValue::Cosine(angle)),
    {
        Command::SetUniform { program: self.id, uniform, value: UniformValue::Cosine(angle) }
    }

    /// The command that sets a vector uniform.
    pub fn add_uniform_vec3(&self, uniform: Uniform, value: Vec3) -> (c: Command)
        ensures
            c == self.set(uniform, UniformValue::Vec3(value)),
    {
        Command::SetUniform { program: self.id, uniform, value: UniformValue::Vec3(value) }
    }

    /// The command that sets a matrix uniform.
    pub fn add_uniform_mat4(&self, uniform: Uniform, value: Mat4) -> (c: Command)
        ensures
            c == self.set(uniform, UniformValue::Mat4(value)),
    {
        Command::SetUniform { program: self.id, uniform, value: UniformValue::Mat4(value) }
    }

    /// The command that sets a matrix uniform to the product `a * b * c`.
    pub fn add_uniform_product(&self, uniform: Uniform, a: Mat4, b: Mat4, c: Mat4) -> (cmd: Command)
        ensures
            cmd == self.set(uniform, UniformValue::Product(a, b, c)),
    {
        Command::SetUniform { program: self.id, uniform, value: UniformValue::Product(a, b, c) }
    }
}

} // verus!

//! The commands that the pipeline asks the host to issue on the GPU.

use vstd::prelude::*;
use crate::math::Vec4;
use crate::program::{Uniform, UniformValue};
use crate::state::{BlendType, CullType, DepthTestType};

verus! {

/// One GPU command. Only `SetUniform` can fail on the host: the compiled
/// program may hold no uniform of that name.
#[derive(Clone, Copy, Debug, PartialEq, Eq, Structural)]
pub enum Command {
    /// Make a render target the destination of the draws that follow, with
    /// a viewport of its full size.
    BindRendertarget { framebuffer: u32, width: usize, height: usize },
    /// Clear the colour attachments of the bound target to `color` and its
    /// depth attachment to the far value.
    Clear { color: Vec4 },
    /// Switch depth writing on or off.
    DepthWrite(bool),
    /// Select the depth test.
    DepthTest(DepthTestType),
    /// Select the culled faces.
    Cull(CullType),
    /// Select the blend mode.
    Blend(BlendType),
    /// Bind a texture to a texture unit.
    BindTexture { texture: u32, unit: u32 },
    /// Set a uniform of a program.
    SetUniform { program: u32, uniform: Uniform, value: UniformValue },
    /// Draw one quad that covers the viewport, with the given program.
    DrawFullScreen { program: u32 },
}

impl Command {
    /// True of the one kind of command that the host may report as failed.
    pub open spec fn is_fallible(self) -> bool {
        self is SetUniform
    }

    /// Tells whether the host may report this command as failed.
    pub fn fallible(&self) -> (b: bool)
        ensures
            b == self.is_fallible(),
    {
        match self {
            Command::SetUniform { .. } => true,
            _ => false,
        }
    }
}

} // verus!

//! Fixed-function GPU state: depth write, depth test, face culling and
//! blending. Each setter is one command; a `PassState` holds the four
//! settings that a pass needs and lists its commands in a fixed order.

use vstd::prelude::*;
use crate::command::Command;

verus! {

/// How a fragment's depth is tested against the depth attachment.
#[derive(Clone, Copy, Debug, PartialEq, Eq, Structural)]
pub enum DepthTestType {
    /// No depth test: every fragment passes.
    Disabled,
    /// A fragment passes if it is at least as near as what is stored.
    LessEqual,
}

/// Which faces are discarded before rasterization.
#[derive(Clone, Copy, Debug, PartialEq, Eq, Structural)]
pub enum CullType {
    /// No face is discarded.
    Disabled,
    /// Faces turned away from the viewer are discarded.
    Back,
    /// Faces turned towards the viewer are discarded.
    Front,
}

/// How a fragment's colour is combined with what the target holds.
#[derive(Clone, Copy, Debug, PartialEq, Eq, Structural)]
pub enum BlendType {
    /// The fragment replaces the stored colour.
    Disabled,
    /// The fragment is added to the stored colour, both with factor one.
    OneOne,
}

/// The command that switches writing to the depth attachment on or off.
pub fn depth_write(enabled: bool) -> (c: Command)
    ensures
        c == Command::DepthWrite(enabled),
{
    Command::DepthWrite(enabled)
}

/// The command that selects the depth test.
pub fn depth_test(mode: DepthTestType) -> (c: Command)
    ensures
        c == Command::DepthTest(mode),
{
    Command::DepthTest(mode)
}

/// The command that selects the culled faces.
pub fn cull(mode: CullType) -> (c: Command)
    ensures
        c == Command::Cull(mode),
{
    Command::Cull(mode)
}

/// The command that selects the blend mode.
pub fn blend(mode: BlendType) -> (c: Command)
    ensures
        c == Command::Blend(mode),
{
    Command::Blend(mode)
}

/// The fixed-function state of one pass.
#[derive(Clone, Copy, Debug, PartialEq, Eq, Structural)]
pub struct PassState {
    pub depth_write: bool,
    pub depth_test: DepthTestType,
    pub cull: CullType,
    pub blend: BlendType,
}

impl PassState {
    /// State for opaque rasterization: depth is written and tested,
    /// nothing is culled, nothing is blended.
    pub open spec fn opaque() -> PassState {
        PassState {
            depth_write: true,
            depth_test: DepthTestType::LessEqual,
            cull: CullType::Disabled,
            blend: BlendType::Disabled,
        }
    }

    /// State for accumulating light: depth is neither written nor tested,
    /// back faces are culled, colours are added.
    pub open spec fn accumulation() -> PassState {
        PassState {
            depth_write: false,
            depth_test: DepthTestType::Disabled,
            cull: CullType::Back,
            blend: BlendType::OneOne,
        }
    }

    /// The four commands that establish this state, in the order
    /// depth write, depth test, culling, blending.
    pub open spec fn commands(self) -> Seq<Command> {
        seq![
            Command::DepthWrite(self.depth_write),
            Command::DepthTest(self.depth_test),
            Command::Cull(self.cull),
            Command::Blend(self.blend),
        ]
    }

    /// The state for the geometry pass.
    pub fn for_geometry() -> (s: PassState)
        ensures
            s == PassState::opaque(),
    {
        PassState {
            depth_write: true,
            depth_test: DepthTestType::LessEqual,
            cull: CullType::Disabled,
            blend: BlendType::Disabled,
        }
    }

    /// The state for the light pass.
    pub fn for_light() -> (s: PassState)
        ensures
            s == PassState::accumulation(),
    {
        PassState {
            depth_write: false,
            depth_test: DepthTestType::Disabled,
            cull: CullType::Back,
            blend: BlendType::OneOne,
        }
    }

    /// Appends the commands of this state to `commands`.
    pub fn apply(&self, commands: &mut Vec<Command>)
        ensures
            final(commands)@ == old(commands)@ + self.commands(),
    {
        commands.push(depth_write(self.depth_write));
        commands.push(depth_test(self.depth_test));
        commands.push(cull(self.cull));
        commands.push(blend(self.blend));
    }
}

} // verus!

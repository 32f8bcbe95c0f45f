//! Drawables that the pipeline owns.

use vstd::prelude::*;
use crate::command::Command;
use crate::program::Program;

verus! {

/// A quad that covers the whole viewport. Drawing it runs a fragment
/// shader once for every pixel of the bound target.
#[derive(Clone, Copy, Debug, PartialEq, Eq, Structural)]
pub struct FullScreen {}

impl FullScreen {
    pub fn new() -> (quad: FullScreen) {
        FullScreen {  }
    }

    /// The command that draws the quad with `program` and the uniforms and
    /// textures that are bound at that time.
    pub fn render(&self, program: &Program) -> (c: Command)
        ensures
            c == (Command::DrawFullScreen { program: program.id }),
    {
        Command::DrawFullScreen { program: program.id }
    }
}

} // verus!

//! Textures, as the pipeline sees them: a GPU name and a size.

use vstd::prelude::*;
use crate::command::Command;

verus! {

/// What the host reports when it cannot create a texture.
#[derive(Debug, PartialEq, Eq)]
pub enum Error {
    FailedToCreateTexture { message: String },
}

/// A texture that lives on the GPU.
#[derive(Clone, Copy, Debug, PartialEq, Eq, Structural)]
pub struct Texture {
    /// The name that the GPU gave to the texture.
    pub id: u32,
    pub width: usize,
    pub height: usize,
}

impl Texture {
    /// Describes the texture named `id`, of the given size.
    pub fn new(id: u32, width: usize, height: usize) -> (t: Texture)
        ensures
            t == (Texture { id, width, height }),
    {
        Texture { id, width, height }
    }

    /// The command that binds this texture to texture unit `unit`.
    pub fn bind(&self, unit: u32) -> (c: Command)
        ensures
            c == (Command::BindTexture { texture: self.id, unit }),
    {
        Command::BindTexture { texture: self.id, unit }
    }
}

} // verus!

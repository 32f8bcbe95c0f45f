//! A deferred-shading pipeline, stated as data.
//!
//! The pipeline never talks to a graphics API itself. Every operation returns
//! the ordered list of GPU commands that the host has to issue, and the host
//! reports back what the GPU answered. Scalars are carried as IEEE-754 bit
//! patterns, so that the library holds no floating-point arithmetic at all.

pub mod camera;
pub mod command;
pub mod light;
pub mod math;
pub mod objects;
pub mod pass;
pub mod program;
pub mod renderer;
pub mod rendertarget;
pub mod state;
pub mod texture;

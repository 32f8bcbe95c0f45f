//! Scalars, vectors and matrices, carried as IEEE-754 single-precision bit
//! patterns. The library moves these values around and never computes with
//! them; arithmetic on them is left to the host.

use vstd::prelude::*;

verus! {

/// Bit pattern of `0.0`.
pub const ZERO_BITS: u32 = 0x0000_0000;

/// Bit pattern of `0.5`.
pub const HALF_BITS: u32 = 0x3F00_0000;

/// Bit pattern of `1.0`.
pub const ONE_BITS: u32 = 0x3F80_0000;

/// A single-precision number, held by its bit pattern.
#[derive(Clone, Copy, Debug, PartialEq, Eq, Structural)]
pub struct Scalar {
    pub bits: u32,
}

impl Scalar {
    /// The scalar with the given bit pattern.
    pub fn from_bits(bits: u32) -> (s: Scalar)
        ensures
            s.bits == bits,
    {
        Scalar { bits }
    }

    /// The bit pattern of this scalar.
    pub fn to_bits(&self) -> (bits: u32)
        ensures
            bits == self.bits,
    {
        self.bits
    }
}

/// A vector of three scalars.
#[derive(Clone, Copy, Debug, PartialEq, Eq, Structural)]
pub struct Vec3 {
    pub x: Scalar,
    pub y: Scalar,
    pub z: Scalar,
}

/// A vector of four scalars.
#[derive(Clone, Copy, Debug, PartialEq, Eq, Structural)]
pub struct Vec4 {
    pub x: Scalar,
    pub y: Scalar,
    pub z: Scalar,
    pub w: Scalar,
}

/// A 4x4 matrix, held column by column.
#[derive(Clone, Copy, Debug, PartialEq, Eq, Structural)]
pub struct Mat4 {
    pub x: Vec4,
    pub y: Vec4,
    pub z: Vec4,
    pub w: Vec4,
}

/// Builds a `Vec3` from three bit patterns.
pub fn vec3(x: u32, y: u32, z: u32) -> (v: Vec3)
    ensures
        v == spec_vec3(x, y, z),
{
    Vec3 { x: Scalar { bits: x }, y: Scalar { bits: y }, z: Scalar { bits: z } }
}

/// Builds a `Vec4` from four bit patterns.
pub fn vec4(x: u32, y: u32, z: u32, w: u32) -> (v: Vec4)
    ensures
        v == spec_vec4(x, y, z, w),
{
    Vec4 {
        x: Scalar { bits: x },
        y: Scalar { bits: y },
        z: Scalar { bits: z },
        w: Scalar { bits: w },
    }
}

pub open spec fn spec_vec3(x: u32, y: u32, z: u32) -> Vec3 {
    Vec3 { x: Scalar { bits: x }, y: Scalar { bits: y }, z: Scalar { bits: z } }
}

pub open spec fn spec_vec4(x: u32, y: u32, z: u32, w: u32) -> Vec4 {
    Vec4 {
        x: Scalar { bits: x },
        y: Scalar { bits: y },
        z: Scalar { bits: z },
        w: Scalar { bits: w },
    }
}

/// Transparent black: all four channels `0.0`.
pub open spec fn transparent_black() -> Vec4 {
    spec_vec4(ZERO_BITS, ZERO_BITS, ZERO_BITS, ZERO_BITS)
}

/// The affine remap from clip space `[-1, 1]` to texture space `[0, 1]`:
/// a scale by one half followed by a shift by one half on each axis.
pub open spec fn bias_matrix() -> Mat4 {
    Mat4 {
        x: spec_vec4(HALF_BITS, ZERO_BITS, ZERO_BITS, ZERO_BITS),
        y: spec_vec4(ZERO_BITS, HALF_BITS, ZERO_BITS, ZERO_BITS),
        z: spec_vec4(ZERO_BITS, ZERO_BITS, HALF_BITS, ZERO_BITS),
        w: spec_vec4(HALF_BITS, HALF_BITS, HALF_BITS, ONE_BITS),
    }
}

impl Mat4 {
    /// Builds a matrix from sixteen bit patterns, column by column.
    pub fn new(
        c0r0: u32, c0r1: u32, c0r2: u32, c0r3: u32,
        c1r0: u32, c1r1: u32, c1r2: u32, c1r3: u32,
        c2r0: u32, c2r1: u32, c2r2: u32, c2r3: u32,
        c3r0: u32, c3r1: u32, c3r2: u32, c3r3: u32,
    ) -> (m: Mat4)
        ensures
            m.x == spec_vec4(c0r0, c0r1, c0r2, c0r3),
            m.y == spec_vec4(c1r0, c1r1, c1r2, c1r3),
            m.z == spec_vec4(c2r0, c2r1, c2r2, c2r3),
            m.w == spec_vec4(c3r0, c3r1, c3r2, c3r3),
    {
        Mat4 {
            x: vec4(c0r0, c0r1, c0r2, c0r3),
            y: vec4(c1r0, c1r1, c1r2, c1r3),
            z: vec4(c2r0, c2r1, c2r2, c2r3),
            w: vec4(c3r0, c3r1, c3r2, c3r3),
        }
    }

    /// The bias matrix, as `bias_matrix` states it.
    pub fn bias() -> (m: Mat4)
        ensures
            m == bias_matrix(),
    {
        Mat4::new(
            HALF_BITS, ZERO_BITS, ZERO_BITS, ZERO_BITS,
            ZERO_BITS, HALF_BITS, ZERO_BITS, ZERO_BITS,
            ZERO_BITS, ZERO_BITS, HALF_BITS, ZERO_BITS,
            HALF_BITS, HALF_BITS, HALF_BITS, ONE_BITS,
        )
    }
}

} // verus!

//! Plain-value stand-ins for the vector types that cross this layer.
use vstd::prelude::*;

verus! {

/// A two-component unsigned vector: a surface extent in pixels.
#[derive(Clone, Copy, Debug, PartialEq, Eq, Structural)]
pub struct UVec2 {
    pub x: u32,
    pub y: u32,
}

impl UVec2 {
    pub fn new(x: u32, y: u32) -> (v: UVec2)
        ensures
            v.x == x,
            v.y == y,
    {
        UVec2 { x, y }
    }
}

/// A four-component single-precision vector, each component carried as its
/// IEEE-754 bit pattern so that it can pass through integer-only code intact.
#[derive(Clone, Copy, Debug, PartialEq, Eq, Structural)]
pub struct Vec4 {
    pub x: u32,
    pub y: u32,
    pub z: u32,
    pub w: u32,
}

impl Vec4 {
    pub fn from_bits(x: u32, y: u32, z: u32, w: u32) -> (v: Vec4)
        ensures
            v.x == x,
            v.y == y,
            v.z == z,
            v.w == w,
    {
        Vec4 { x, y, z, w }
    }
}

/// Bit pattern of the single-precision value one.
pub const ONE_BITS: u32 = 0x3F80_0000;


/// A four-by-four single-precision matrix in the driver's memory order, each
/// element carried as its IEEE-754 bit pattern.
#[derive(Clone, Copy, Debug, PartialEq, Eq)]
pub struct Mat4 {
    pub elements: [u32; 16],
}

impl Mat4 {
    pub fn from_bits(elements: [u32; 16]) -> (m: Mat4)
        ensures
            m.elements == elements,
    {
        Mat4 { elements }
    }
}

} // verus!

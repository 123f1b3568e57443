//! Symbolic driver constants used by this layer, with their registry values.
use vstd::prelude::*;

verus! {

pub const TRUE: i32 = 1;
pub const FALSE: i32 = 0;

pub const NEAREST: u32 = 0x2600;
pub const LINEAR: u32 = 0x2601;

pub const COLOR: u32 = 0x1800;
pub const DEPTH: u32 = 0x1801;
pub const STENCIL: u32 = 0x1802;
pub const DEPTH_STENCIL: u32 = 0x84F9;

pub const DEPTH_BUFFER_BIT: u32 = 0x0000_0100;
pub const STENCIL_BUFFER_BIT: u32 = 0x0000_0400;
pub const COLOR_BUFFER_BIT: u32 = 0x0000_4000;

pub const FRAMEBUFFER: u32 = 0x8D40;
pub const DRAW_FRAMEBUFFER: u32 = 0x8CA9;
pub const RENDERBUFFER: u32 = 0x8D41;
pub const TEXTURE_2D: u32 = 0x0DE1;

pub const COLOR_ATTACHMENT0: u32 = 0x8CE0;
pub const DEPTH_ATTACHMENT: u32 = 0x8D00;
pub const STENCIL_ATTACHMENT: u32 = 0x8D20;
pub const DEPTH_STENCIL_ATTACHMENT: u32 = 0x821A;

pub const FRAMEBUFFER_COMPLETE: u32 = 0x8CD5;
pub const FRAMEBUFFER_UNDEFINED: u32 = 0x8219;
pub const FRAMEBUFFER_INCOMPLETE_ATTACHMENT: u32 = 0x8CD6;
pub const FRAMEBUFFER_INCOMPLETE_MISSING_ATTACHMENT: u32 = 0x8CD7;
pub const FRAMEBUFFER_INCOMPLETE_DRAW_BUFFER: u32 = 0x8CDB;

pub const PROGRAM_SEPARABLE: u32 = 0x8258;
pub const LINK_STATUS: u32 = 0x8B82;
pub const INFO_LOG_LENGTH: u32 = 0x8B84;
pub const UNIFORM: u32 = 0x92E1;

pub const VERTEX_SHADER: u32 = 0x8B31;
pub const TESS_CONTROL_SHADER: u32 = 0x8E88;
pub const TESS_EVALUATION_SHADER: u32 = 0x8E87;
pub const GEOMETRY_SHADER: u32 = 0x8DD9;
pub const FRAGMENT_SHADER: u32 = 0x8B30;
pub const COMPUTE_SHADER: u32 = 0x91B9;

pub const R8: u32 = 0x8229;
pub const RG8: u32 = 0x822B;
pub const RGB8: u32 = 0x8051;
pub const RGBA8: u32 = 0x8058;
pub const SRGB8: u32 = 0x8C41;
pub const SRGB8_ALPHA8: u32 = 0x8C43;
pub const R16F: u32 = 0x822D;
pub const RG16F: u32 = 0x822F;
pub const RGB16F: u32 = 0x881B;
pub const RGBA16F: u32 = 0x881A;
pub const R32F: u32 = 0x822E;
pub const RG32F: u32 = 0x8230;
pub const RGB32F: u32 = 0x8815;
pub const RGBA32F: u32 = 0x8814;
pub const R11F_G11F_B10F: u32 = 0x8C3A;
pub const DEPTH_COMPONENT16: u32 = 0x81A5;
pub const DEPTH_COMPONENT24: u32 = 0x81A6;
pub const DEPTH_COMPONENT32: u32 = 0x81A7;
pub const DEPTH_COMPONENT32F: u32 = 0x8CAC;
pub const DEPTH24_STENCIL8: u32 = 0x88F0;
pub const DEPTH32F_STENCIL8: u32 = 0x8CAD;
pub const STENCIL_INDEX8: u32 = 0x8D48;

} // verus!

//! Sized pixel formats an attachment can be allocated with.
use vstd::prelude::*;
use crate::glenum;

verus! {

/// A sized internal format.
#[derive(Clone, Copy, Debug, PartialEq, Eq, Structural)]
pub enum SizedTextureFormat {
    R8,
    Rg8,
    Rgb8,
    Rgba8,
    Srgb8,
    Srgb8Alpha8,
    R16f,
    Rg16f,
    Rgb16f,
    Rgba16f,
    R32f,
    Rg32f,
    Rgb32f,
    Rgba32f,
    R11fG11fB10f,
    Depth16,
    Depth24,
    Depth32,
    Depth32f,
    Depth24Stencil8,
    Depth32fStencil8,
    StencilIndex8,
}

/// What a format stores, as far as a render target cares.
#[derive(Clone, Copy, Debug, PartialEq, Eq, Structural)]
pub enum FormatClass {
    Color,
    Depth,
    DepthStencil,
    Stencil,
}

impl SizedTextureFormat {
    /// The fixed format-to-class table.
    pub open spec fn spec_class(self) -> FormatClass {
        match self {
            SizedTextureFormat::Depth16
            | SizedTextureFormat::Depth24
            | SizedTextureFormat::Depth32
            | SizedTextureFormat::Depth32f => FormatClass::Depth,
            SizedTextureFormat::Depth24Stencil8
            | SizedTextureFormat::Depth32fStencil8 => FormatClass::DepthStencil,
            SizedTextureFormat::StencilIndex8 => FormatClass::Stencil,
            _ => FormatClass::Color,
        }
    }

    /// The driver's enumerant for each format.
    pub open spec fn spec_gl_enum(self) -> u32 {
        match self {
            SizedTextureFormat::R8 => glenum::R8,
            SizedTextureFormat::Rg8 => glenum::RG8,
            SizedTextureFormat::Rgb8 => glenum::RGB8,
            SizedTextureFormat::Rgba8 => glenum::RGBA8,
            SizedTextureFormat::Srgb8 => glenum::SRGB8,
            SizedTextureFormat::Srgb8Alpha8 => glenum::SRGB8_ALPHA8,
            SizedTextureFormat::R16f => glenum::R16F,
            SizedTextureFormat::Rg16f => glenum::RG16F,
            SizedTextureFormat::Rgb16f => glenum::RGB16F,
            SizedTextureFormat::Rgba16f => glenum::RGBA16F,
            SizedTextureFormat::R32f => glenum::R32F,
            SizedTextureFormat::Rg32f => glenum::RG32F,
            SizedTextureFormat::Rgb32f => glenum::RGB32F,
            SizedTextureFormat::Rgba32f => glenum::RGBA32F,
            SizedTextureFormat::R11fG11fB10f => glenum::R11F_G11F_B10F,
            SizedTextureFormat::Depth16 => glenum::DEPTH_COMPONENT16,
            SizedTextureFormat::Depth24 => glenum::DEPTH_COMPONENT24,
            SizedTextureFormat::Depth32 => glenum::DEPTH_COMPONENT32,
            SizedTextureFormat::Depth32f => glenum::DEPTH_COMPONENT32F,
            SizedTextureFormat::Depth24Stencil8 => glenum::DEPTH24_STENCIL8,
            SizedTextureFormat::Depth32fStencil8 => glenum::DEPTH32F_STENCIL8,
            SizedTextureFormat::StencilIndex8 => glenum::STENCIL_INDEX8,
        }
    }

    /// Classifies this format as colour, depth, depth-stencil or stencil.
    pub fn class(self) -> (c: FormatClass)
        ensures
            c == self.spec_class(),
    {
        match self {
            SizedTextureFormat::Depth16
            | SizedTextureFormat::Depth24
            | SizedTextureFormat::Depth32
            | SizedTextureFormat::Depth32f => FormatClass::Depth,
            SizedTextureFormat::Depth24Stencil8
            | SizedTextureFormat::Depth32fStencil8 => FormatClass::DepthStencil,
            SizedTextureFormat::StencilIndex8 => FormatClass::Stencil,
            _ => FormatClass::Color,
        }
    }

    /// The driver's enumerant for this format.
    pub fn to_gl_enum(self) -> (e: u32)
        ensures
            e == self.spec_gl_enum(),
    {
        match self {
            SizedTextureFormat::R8 => glenum::R8,
            SizedTextureFormat::Rg8 => glenum::RG8,
            SizedTextureFormat::Rgb8 => glenum::RGB8,
            SizedTextureFormat::Rgba8 => glenum::RGBA8,
            SizedTextureFormat::Srgb8 => glenum::SRGB8,
            SizedTextureFormat::Srgb8Alpha8 => glenum::SRGB8_ALPHA8,
            SizedTextureFormat::R16f => glenum::R16F,
            SizedTextureFormat::Rg16f => glenum::RG16F,
            SizedTextureFormat::Rgb16f => glenum::RGB16F,
            SizedTextureFormat::Rgba16f => glenum::RGBA16F,
            SizedTextureFormat::R32f => glenum::R32F,
            SizedTextureFormat::Rg32f => glenum::RG32F,
            SizedTextureFormat::Rgb32f => glenum::RGB32F,
            SizedTextureFormat::Rgba32f => glenum::RGBA32F,
            SizedTextureFormat::R11fG11fB10f => glenum::R11F_G11F_B10F,
            SizedTextureFormat::Depth16 => glenum::DEPTH_COMPONENT16,
            SizedTextureFormat::Depth24 => glenum::DEPTH_COMPONENT24,
            SizedTextureFormat::Depth32 => glenum::DEPTH_COMPONENT32,
            SizedTextureFormat::Depth32f => glenum::DEPTH_COMPONENT32F,
            SizedTextureFormat::Depth24Stencil8 => glenum::DEPTH24_STENCIL8,
            SizedTextureFormat::Depth32fStencil8 => glenum::DEPTH32F_STENCIL8,
            SizedTextureFormat::StencilIndex8 => glenum::STENCIL_INDEX8,
        }
    }
}


/// A texture object owned by the caller, known here by its driver handle.
#[derive(Clone, Copy, Debug, PartialEq, Eq, Structural)]
pub struct Texture {
    pub id: u32,
}

impl Texture {
    pub fn new(id: u32) -> (t: Texture)
        ensures
            t.id == id,
    {
        Texture { id }
    }

    pub fn get_id(&self) -> (id: u32)
        ensures
            id == self.id,
    {
        self.id
    }
}

/// A sampler object owned by the caller, known here by its driver handle.
#[derive(Clone, Copy, Debug, PartialEq, Eq, Structural)]
pub struct Sampler {
    pub id: u32,
}

impl Sampler {
    pub fn new(id: u32) -> (s: Sampler)
        ensures
            s.id == id,
    {
        Sampler { id }
    }
}

} // verus!

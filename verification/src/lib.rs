//! GPU resource layer of a real-time renderer: separable shader-stage
//! pipelines and multi-attachment framebuffers.
//!
//! Every decision this layer takes (which slot a stage occupies, how a pixel
//! format is classified, which colour index an attachment receives, which
//! driver commands an operation amounts to, how a driver status becomes an
//! error) is a verified function on plain values. Driver calls themselves are
//! issued by the embedding program, which hands the driver's answers back in.
pub mod framebuffer;
pub mod glenum;
pub mod math;
pub mod program_pipeline;
pub mod shader;
pub mod texture;

use pbs_engine::glenum;
use pbs_engine::shader::ShaderType;
use pbs_engine::texture::SizedTextureFormat;

#[test]
fn enumerants_agree_with_the_bindings() {
    assert_eq!(glenum::TRUE, gl::TRUE as i32);
    assert_eq!(glenum::FALSE, gl::FALSE as i32);
    assert_eq!(glenum::NEAREST, gl::NEAREST);
    assert_eq!(glenum::LINEAR, gl::LINEAR);
    assert_eq!(glenum::COLOR, gl::COLOR);
    assert_eq!(glenum::DEPTH, gl::DEPTH);
    assert_eq!(glenum::STENCIL, gl::STENCIL);
    assert_eq!(glenum::DEPTH_STENCIL, gl::DEPTH_STENCIL);
    assert_eq!(glenum::COLOR_BUFFER_BIT, gl::COLOR_BUFFER_BIT);
    assert_eq!(glenum::DEPTH_BUFFER_BIT, gl::DEPTH_BUFFER_BIT);
    assert_eq!(glenum::STENCIL_BUFFER_BIT, gl::STENCIL_BUFFER_BIT);
    assert_eq!(glenum::FRAMEBUFFER, gl::FRAMEBUFFER);
    assert_eq!(glenum::DRAW_FRAMEBUFFER, gl::DRAW_FRAMEBUFFER);
    assert_eq!(glenum::RENDERBUFFER, gl::RENDERBUFFER);
    assert_eq!(glenum::TEXTURE_2D, gl::TEXTURE_2D);
    assert_eq!(glenum::COLOR_ATTACHMENT0, gl::COLOR_ATTACHMENT0);
    assert_eq!(glenum::COLOR_ATTACHMENT0 + 5, gl::COLOR_ATTACHMENT5);
    assert_eq!(glenum::DEPTH_ATTACHMENT, gl::DEPTH_ATTACHMENT);
    assert_eq!(glenum::STENCIL_ATTACHMENT, gl::STENCIL_ATTACHMENT);
    assert_eq!(glenum::DEPTH_STENCIL_ATTACHMENT, gl::DEPTH_STENCIL_ATTACHMENT);
    assert_eq!(glenum::FRAMEBUFFER_COMPLETE, gl::FRAMEBUFFER_COMPLETE);
    assert_eq!(glenum::FRAMEBUFFER_UNDEFINED, gl::FRAMEBUFFER_UNDEFINED);
    assert_eq!(glenum::FRAMEBUFFER_INCOMPLETE_ATTACHMENT, gl::FRAMEBUFFER_INCOMPLETE_ATTACHMENT);
    assert_eq!(
        glenum::FRAMEBUFFER_INCOMPLETE_MISSING_ATTACHMENT,
        gl::FRAMEBUFFER_INCOMPLETE_MISSING_ATTACHMENT
    );
    assert_eq!(glenum::FRAMEBUFFER_INCOMPLETE_DRAW_BUFFER, gl::FRAMEBUFFER_INCOMPLETE_DRAW_BUFFER);
    assert_eq!(glenum::PROGRAM_SEPARABLE, gl::PROGRAM_SEPARABLE);
    assert_eq!(glenum::LINK_STATUS, gl::LINK_STATUS);
    assert_eq!(glenum::INFO_LOG_LENGTH, gl::INFO_LOG_LENGTH);
    assert_eq!(glenum::UNIFORM, gl::UNIFORM);
}

#[test]
fn stage_enumerants_agree_with_the_bindings() {
    assert_eq!(ShaderType::Vertex.to_gl_enum(), gl::VERTEX_SHADER);
    assert_eq!(ShaderType::TesselationControl.to_gl_enum(), gl::TESS_CONTROL_SHADER);
    assert_eq!(ShaderType::TesselationEvaluation.to_gl_enum(), gl::TESS_EVALUATION_SHADER);
    assert_eq!(ShaderType::Geometry.to_gl_enum(), gl::GEOMETRY_SHADER);
    assert_eq!(ShaderType::Fragment.to_gl_enum(), gl::FRAGMENT_SHADER);
    assert_eq!(ShaderType::Compute.to_gl_enum(), gl::COMPUTE_SHADER);
}

#[test]
fn format_enumerants_agree_with_the_bindings() {
    assert_eq!(SizedTextureFormat::R8.to_gl_enum(), gl::R8);
    assert_eq!(SizedTextureFormat::Rg8.to_gl_enum(), gl::RG8);
    assert_eq!(SizedTextureFormat::Rgb8.to_gl_enum(), gl::RGB8);
    assert_eq!(SizedTextureFormat::Rgba8.to_gl_enum(), gl::RGBA8);
    assert_eq!(SizedTextureFormat::Srgb8.to_gl_enum(), gl::SRGB8);
    assert_eq!(SizedTextureFormat::Srgb8Alpha8.to_gl_enum(), gl::SRGB8_ALPHA8);
    assert_eq!(SizedTextureFormat::R16f.to_gl_enum(), gl::R16F);
    assert_eq!(SizedTextureFormat::Rg16f.to_gl_enum(), gl::RG16F);
    assert_eq!(SizedTextureFormat::Rgb16f.to_gl_enum(), gl::RGB16F);
    assert_eq!(SizedTextureFormat::Rgba16f.to_gl_enum(), gl::RGBA16F);
    assert_eq!(SizedTextureFormat::R32f.to_gl_enum(), gl::R32F);
    assert_eq!(SizedTextureFormat::Rg32f.to_gl_enum(), gl::RG32F);
    assert_eq!(SizedTextureFormat::Rgb32f.to_gl_enum(), gl::RGB32F);
    assert_eq!(SizedTextureFormat::Rgba32f.to_gl_enum(), gl::RGBA32F);
    assert_eq!(SizedTextureFormat::R11fG11fB10f.to_gl_enum(), gl::R11F_G11F_B10F);
    assert_eq!(SizedTextureFormat::Depth16.to_gl_enum(), gl::DEPTH_COMPONENT16);
    assert_eq!(SizedTextureFormat::Depth24.to_gl_enum(), gl::DEPTH_COMPONENT24);
    assert_eq!(SizedTextureFormat::Depth32.to_gl_enum(), gl::DEPTH_COMPONENT32);
    assert_eq!(SizedTextureFormat::Depth32f.to_gl_enum(), gl::DEPTH_COMPONENT32F);
    assert_eq!(SizedTextureFormat::Depth24Stencil8.to_gl_enum(), gl::DEPTH24_STENCIL8);
    assert_eq!(SizedTextureFormat::Depth32fStencil8.to_gl_enum(), gl::DEPTH32F_STENCIL8);
    assert_eq!(SizedTextureFormat::StencilIndex8.to_gl_enum(), gl::STENCIL_INDEX8);
}

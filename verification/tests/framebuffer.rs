use pbs_engine::framebuffer::{
    attachment_counts, select_requests,
    AttachmentBindPoint, AttachmentType, BlitCommand, ClearCommand, Framebuffer,
    FramebufferAttachmentCreateInfo, FramebufferError, FramebufferLayout, SetupCommand,
    TextureFilter, BLIT_MASK,
};
use pbs_engine::glenum;
use pbs_engine::math::{UVec2, Vec4};
use pbs_engine::texture::{FormatClass, SizedTextureFormat};

fn info(format: SizedTextureFormat, kind: AttachmentType) -> FramebufferAttachmentCreateInfo {
    FramebufferAttachmentCreateInfo::new(format, kind)
}

fn complete(
    size: UVec2,
    infos: Vec<FramebufferAttachmentCreateInfo>,
    id: u32,
    textures: &Vec<u32>,
    renderbuffers: &Vec<u32>,
) -> Framebuffer {
    Framebuffer::new(size, infos, id, textures, renderbuffers, glenum::FRAMEBUFFER_COMPLETE)
        .expect("a complete status yields a framebuffer")
}

#[test]
fn single_color_texture_has_no_depth_and_one_draw_target() {
    let infos = vec![info(SizedTextureFormat::Rgba8, AttachmentType::Texture)];
    let fb = complete(UVec2::new(256, 256), infos, 3, &vec![7], &vec![]);
    assert!(!fb.has_depth());
    assert_eq!(fb.texture_attachment_count(), 1);
    assert_eq!(fb.renderbuffer_attachment_count(), 0);
    assert_eq!(fb.draw_buffers(), vec![glenum::COLOR_ATTACHMENT0]);
    assert_eq!(fb.get_id(), 3);
    assert_eq!(fb.get_size(), UVec2::new(256, 256));
    let attachment = fb.get_texture_attachment(0);
    assert_eq!(attachment.get_id(), 7);
    assert_eq!(attachment.get_format(), SizedTextureFormat::Rgba8);
    assert_eq!(attachment.get_type(), AttachmentType::Texture);
    assert_eq!(
        attachment.get_bind_point(),
        AttachmentBindPoint::ColorAttachment(glenum::COLOR_ATTACHMENT0, 0)
    );
}

#[test]
fn depth_stencil_goes_to_its_own_bind_point() {
    let infos = vec![
        info(SizedTextureFormat::Rgba8, AttachmentType::Texture),
        info(SizedTextureFormat::Depth24Stencil8, AttachmentType::Texture),
    ];
    let fb = complete(UVec2::new(64, 32), infos, 1, &vec![10, 11], &vec![]);
    assert!(fb.has_depth());
    assert_eq!(fb.texture_attachment_count(), 2);
    assert_eq!(
        fb.get_texture_attachment(1).get_bind_point(),
        AttachmentBindPoint::DepthStencilAttachment(glenum::DEPTH_STENCIL_ATTACHMENT)
    );
    assert_eq!(fb.get_texture_attachment(1).get_id(), 11);
    assert_eq!(fb.draw_buffers(), vec![glenum::COLOR_ATTACHMENT0]);
}

#[test]
fn depth_stencil_renderbuffer_beside_color_texture() {
    let infos = vec![
        info(SizedTextureFormat::Depth32fStencil8, AttachmentType::Renderbuffer),
        info(SizedTextureFormat::Rgba16f, AttachmentType::Texture),
    ];
    let fb = complete(UVec2::new(8, 8), infos, 2, &vec![5], &vec![6]);
    assert!(fb.has_depth());
    assert_eq!(fb.texture_attachment_count(), 1);
    assert_eq!(fb.renderbuffer_attachment_count(), 1);
    assert_eq!(fb.draw_buffers().len(), 1);
    let unbind = fb.unbind(true);
    assert_eq!(unbind.invalidate, Some(vec![glenum::DEPTH_STENCIL_ATTACHMENT]));
}

#[test]
fn zero_attachments_reported_missing() {
    let r = Framebuffer::new(
        UVec2::new(256, 256),
        vec![],
        1,
        &vec![],
        &vec![],
        glenum::FRAMEBUFFER_INCOMPLETE_MISSING_ATTACHMENT,
    );
    assert_eq!(r.err(), Some(FramebufferError::IncompleteMissingAttachment));
}

#[test]
fn every_status_maps_to_its_error() {
    assert_eq!(Framebuffer::check_status(glenum::FRAMEBUFFER_COMPLETE), Ok(()));
    assert_eq!(Framebuffer::check_status(glenum::FRAMEBUFFER_UNDEFINED), Err(FramebufferError::Unidentified));
    assert_eq!(
        Framebuffer::check_status(glenum::FRAMEBUFFER_INCOMPLETE_ATTACHMENT),
        Err(FramebufferError::IncompleteAttachment)
    );
    assert_eq!(
        Framebuffer::check_status(glenum::FRAMEBUFFER_INCOMPLETE_MISSING_ATTACHMENT),
        Err(FramebufferError::IncompleteMissingAttachment)
    );
    assert_eq!(
        Framebuffer::check_status(glenum::FRAMEBUFFER_INCOMPLETE_DRAW_BUFFER),
        Err(FramebufferError::IncompleteDrawBuffer)
    );
    assert_eq!(Framebuffer::check_status(0x8CDD), Err(FramebufferError::Unknown));
    assert_eq!(Framebuffer::check_status(0x8CDC), Err(FramebufferError::Unknown));
    assert_eq!(Framebuffer::check_status(0), Err(FramebufferError::Unknown));
}

#[test]
fn incomplete_status_yields_no_framebuffer() {
    let statuses = [
        (glenum::FRAMEBUFFER_UNDEFINED, FramebufferError::Unidentified),
        (glenum::FRAMEBUFFER_INCOMPLETE_ATTACHMENT, FramebufferError::IncompleteAttachment),
        (glenum::FRAMEBUFFER_INCOMPLETE_DRAW_BUFFER, FramebufferError::IncompleteDrawBuffer),
        (0x8CDD, FramebufferError::Unknown),
    ];
    for (status, expected) in statuses {
        let infos = vec![info(SizedTextureFormat::Rgba8, AttachmentType::Texture)];
        let r = Framebuffer::new(UVec2::new(4, 4), infos, 1, &vec![2], &vec![], status);
        assert_eq!(r.err(), Some(expected));
    }
}

#[test]
fn error_messages() {
    assert_eq!(FramebufferError::Unidentified.message(), "Undefined framebuffer.");
    assert_eq!(
        FramebufferError::IncompleteAttachment.message(),
        "Incomplete framebuffer attachment"
    );
    assert_eq!(
        FramebufferError::IncompleteMissingAttachment.message(),
        "Incomplete framebuffer. Add at least one attachment to the framebuffer."
    );
    assert_eq!(
        FramebufferError::IncompleteDrawBuffer.message(),
        "Incomplete draw buffer. Check that all attachments enabled exist in the framebuffer."
    );
    assert_eq!(FramebufferError::Unknown.message(), "Unknown framebuffer error.");
}

#[test]
fn texture_attachment_lookup_at_last_index() {
    let infos = vec![
        info(SizedTextureFormat::Rgba8, AttachmentType::Texture),
        info(SizedTextureFormat::Rgb8, AttachmentType::Renderbuffer),
        info(SizedTextureFormat::R32f, AttachmentType::Texture),
        info(SizedTextureFormat::Rg16f, AttachmentType::Texture),
    ];
    let fb = complete(UVec2::new(16, 16), infos, 1, &vec![30, 31, 32], &vec![40]);
    let n = fb.texture_attachment_count();
    assert_eq!(n, 3);
    let last = fb.get_texture_attachment(n - 1);
    assert_eq!(last.get_id(), 32);
    assert_eq!(last.get_format(), SizedTextureFormat::Rg16f);
    assert_eq!(fb.get_texture_attachment(0).get_id(), 30);
    assert_eq!(fb.get_texture_attachment(1).get_format(), SizedTextureFormat::R32f);
}

#[test]
fn texture_colors_are_numbered_before_renderbuffer_colors() {
    let infos = vec![
        info(SizedTextureFormat::Rgba8, AttachmentType::Renderbuffer),
        info(SizedTextureFormat::Depth24, AttachmentType::Texture),
        info(SizedTextureFormat::Rgba16f, AttachmentType::Texture),
        info(SizedTextureFormat::Rgb8, AttachmentType::Renderbuffer),
        info(SizedTextureFormat::Rgba32f, AttachmentType::Undefined),
        info(SizedTextureFormat::Rgba8, AttachmentType::Texture),
    ];
    let fb = complete(UVec2::new(16, 16), infos, 9, &vec![1, 2, 3], &vec![4, 5]);
    assert_eq!(fb.texture_attachment_count(), 3);
    assert_eq!(fb.renderbuffer_attachment_count(), 2);
    assert!(fb.has_depth());
    assert_eq!(
        fb.get_texture_attachment(0).get_bind_point(),
        AttachmentBindPoint::DepthAttachment(glenum::DEPTH_ATTACHMENT)
    );
    assert_eq!(
        fb.get_texture_attachment(1).get_bind_point(),
        AttachmentBindPoint::ColorAttachment(glenum::COLOR_ATTACHMENT0, 0)
    );
    assert_eq!(
        fb.get_texture_attachment(2).get_bind_point(),
        AttachmentBindPoint::ColorAttachment(glenum::COLOR_ATTACHMENT0 + 1, 1)
    );
    assert_eq!(
        fb.unbind(true).invalidate,
        Some(vec![glenum::COLOR_ATTACHMENT0 + 2, glenum::COLOR_ATTACHMENT0 + 3])
    );
    assert_eq!(
        fb.draw_buffers(),
        vec![
            glenum::COLOR_ATTACHMENT0,
            glenum::COLOR_ATTACHMENT0 + 1,
            glenum::COLOR_ATTACHMENT0 + 2,
            glenum::COLOR_ATTACHMENT0 + 3
        ]
    );
    let clear = fb.clear(&Vec4::from_bits(0, 0, 0, 0));
    let indices: Vec<i32> = clear
        .iter()
        .filter_map(|c| match c {
            ClearCommand::Color { draw_buffer, .. } => Some(*draw_buffer),
            _ => None,
        })
        .collect();
    assert_eq!(indices, vec![0, 1, 2, 3]);
}

#[test]
fn requests_are_split_by_kind_in_order() {
    let infos = vec![
        info(SizedTextureFormat::Rgba8, AttachmentType::Renderbuffer),
        info(SizedTextureFormat::Depth24, AttachmentType::Texture),
        info(SizedTextureFormat::Rgba32f, AttachmentType::Undefined),
        info(SizedTextureFormat::Rgb8, AttachmentType::Texture),
    ];
    assert_eq!(attachment_counts(&infos), (2, 1));
    assert_eq!(
        select_requests(&infos, AttachmentType::Texture),
        vec![
            info(SizedTextureFormat::Depth24, AttachmentType::Texture),
            info(SizedTextureFormat::Rgb8, AttachmentType::Texture)
        ]
    );
    assert_eq!(
        select_requests(&infos, AttachmentType::Renderbuffer),
        vec![info(SizedTextureFormat::Rgba8, AttachmentType::Renderbuffer)]
    );
    assert_eq!(attachment_counts(&vec![]), (0, 0));
}

#[test]
fn format_classification_table() {
    let depth = [
        SizedTextureFormat::Depth16,
        SizedTextureFormat::Depth24,
        SizedTextureFormat::Depth32,
        SizedTextureFormat::Depth32f,
    ];
    for f in depth {
        assert_eq!(f.class(), FormatClass::Depth);
        assert_eq!(
            Framebuffer::is_depth_stencil_attachment(f),
            Some(AttachmentBindPoint::DepthAttachment(glenum::DEPTH_ATTACHMENT))
        );
    }
    for f in [SizedTextureFormat::Depth24Stencil8, SizedTextureFormat::Depth32fStencil8] {
        assert_eq!(f.class(), FormatClass::DepthStencil);
        assert_eq!(
            Framebuffer::is_depth_stencil_attachment(f),
            Some(AttachmentBindPoint::DepthStencilAttachment(glenum::DEPTH_STENCIL_ATTACHMENT))
        );
    }
    assert_eq!(
        Framebuffer::is_depth_stencil_attachment(SizedTextureFormat::StencilIndex8),
        Some(AttachmentBindPoint::StencilAttachment(glenum::STENCIL_ATTACHMENT))
    );
    let colors = [
        SizedTextureFormat::R8,
        SizedTextureFormat::Rg8,
        SizedTextureFormat::Rgb8,
        SizedTextureFormat::Rgba8,
        SizedTextureFormat::Srgb8,
        SizedTextureFormat::Srgb8Alpha8,
        SizedTextureFormat::R16f,
        SizedTextureFormat::Rg16f,
        SizedTextureFormat::Rgb16f,
        SizedTextureFormat::Rgba16f,
        SizedTextureFormat::R32f,
        SizedTextureFormat::Rg32f,
        SizedTextureFormat::Rgb32f,
        SizedTextureFormat::Rgba32f,
        SizedTextureFormat::R11fG11fB10f,
    ];
    for f in colors {
        assert_eq!(f.class(), FormatClass::Color);
        assert_eq!(Framebuffer::is_depth_stencil_attachment(f), None);
    }
}

#[test]
fn bind_point_enumerant() {
    assert_eq!(AttachmentBindPoint::ColorAttachment(0x8CE3, 3).to_gl_enum(), 0x8CE3);
    assert_eq!(AttachmentBindPoint::DepthAttachment(0x8D00).to_gl_enum(), 0x8D00);
    assert_eq!(AttachmentBindPoint::DepthStencilAttachment(0x821A).to_gl_enum(), 0x821A);
    assert_eq!(AttachmentBindPoint::StencilAttachment(0x8D20).to_gl_enum(), 0x8D20);
}

#[test]
fn clear_color_and_depth_issues_one_of_each_and_no_stencil() {
    let infos = vec![
        info(SizedTextureFormat::Rgba8, AttachmentType::Texture),
        info(SizedTextureFormat::Depth32f, AttachmentType::Renderbuffer),
    ];
    let fb = complete(UVec2::new(256, 256), infos, 4, &vec![1], &vec![2]);
    let color = Vec4::from_bits(
        0.25f32.to_bits(),
        0.5f32.to_bits(),
        0.75f32.to_bits(),
        1.0f32.to_bits(),
    );
    let commands = fb.clear(&color);
    assert_eq!(commands.len(), 2);
    assert_eq!(
        commands[0],
        ClearCommand::Color { framebuffer: 4, draw_buffer: 0, value: color }
    );
    match commands[1] {
        ClearCommand::Depth { framebuffer, depth } => {
            assert_eq!(framebuffer, 4);
            assert_eq!(f32::from_bits(depth), 1.0);
        }
        _ => panic!("second command clears depth"),
    }
    let stencil_clears = commands
        .iter()
        .filter(|c| matches!(c, ClearCommand::Stencil { .. } | ClearCommand::DepthStencil { .. }))
        .count();
    assert_eq!(stencil_clears, 0);
    let color_clears =
        commands.iter().filter(|c| matches!(c, ClearCommand::Color { .. })).count();
    assert_eq!(color_clears, 1);
}

#[test]
fn clear_depth_stencil_and_stencil_values() {
    let infos = vec![info(SizedTextureFormat::Depth24Stencil8, AttachmentType::Texture)];
    let fb = complete(UVec2::new(2, 2), infos, 6, &vec![1], &vec![]);
    let commands = fb.clear(&Vec4::from_bits(0, 0, 0, 0));
    assert_eq!(
        commands,
        vec![ClearCommand::DepthStencil { framebuffer: 6, depth: 1.0f32.to_bits(), stencil: 0 }]
    );
    let infos = vec![info(SizedTextureFormat::StencilIndex8, AttachmentType::Renderbuffer)];
    let fb = complete(UVec2::new(2, 2), infos, 7, &vec![], &vec![1]);
    assert!(fb.has_depth());
    let commands = fb.clear(&Vec4::from_bits(0, 0, 0, 0));
    assert_eq!(commands, vec![ClearCommand::Stencil { framebuffer: 7, stencil: 1 }]);
}

#[test]
fn bind_sets_viewport_to_size() {
    let infos = vec![info(SizedTextureFormat::Rgba8, AttachmentType::Texture)];
    let fb = complete(UVec2::new(640, 480), infos, 12, &vec![1], &vec![]);
    let bind = fb.bind();
    assert_eq!(bind.target, glenum::FRAMEBUFFER);
    assert_eq!(bind.framebuffer, 12);
    assert_eq!((bind.viewport_x, bind.viewport_y), (0, 0));
    assert_eq!((bind.viewport_width, bind.viewport_height), (640, 480));
}

#[test]
fn unbind_invalidates_renderbuffers_only_on_request() {
    let infos = vec![
        info(SizedTextureFormat::Rgba8, AttachmentType::Texture),
        info(SizedTextureFormat::Depth24, AttachmentType::Renderbuffer),
    ];
    let fb = complete(UVec2::new(4, 4), infos, 12, &vec![1], &vec![2]);
    let plain = fb.unbind(false);
    assert_eq!(plain.invalidate, None);
    assert_eq!(plain.target, glenum::FRAMEBUFFER);
    assert_eq!(plain.framebuffer, 0);
    let hinted = fb.unbind(true);
    assert_eq!(hinted.invalidate, Some(vec![glenum::DEPTH_ATTACHMENT]));
    assert_eq!(hinted.framebuffer, 0);

    let infos = vec![info(SizedTextureFormat::Rgba8, AttachmentType::Texture)];
    let textures_only = complete(UVec2::new(4, 4), infos, 13, &vec![1], &vec![]);
    assert_eq!(textures_only.unbind(true).invalidate, None);
}

#[test]
fn blit_to_default_stretches_full_surfaces() {
    let infos = vec![info(SizedTextureFormat::Rgba8, AttachmentType::Texture)];
    let source = complete(UVec2::new(256, 256), infos, 5, &vec![1], &vec![]);
    let command = Framebuffer::blit_to_default(&source, UVec2::new(512, 256));
    assert_eq!(
        command,
        BlitCommand {
            read_framebuffer: 5,
            draw_framebuffer: 0,
            src_x0: 0,
            src_y0: 0,
            src_x1: 256,
            src_y1: 256,
            dst_x0: 0,
            dst_y0: 0,
            dst_x1: 512,
            dst_y1: 256,
            mask: 0x4500,
            filter: glenum::NEAREST,
        }
    );
}

#[test]
fn blit_between_framebuffers() {
    let a = complete(
        UVec2::new(100, 50),
        vec![info(SizedTextureFormat::Rgba8, AttachmentType::Texture)],
        5,
        &vec![1],
        &vec![],
    );
    let b = complete(
        UVec2::new(30, 70),
        vec![info(SizedTextureFormat::Rgba8, AttachmentType::Texture)],
        8,
        &vec![2],
        &vec![],
    );
    let command = Framebuffer::blit(&a, &b);
    assert_eq!(command.read_framebuffer, 5);
    assert_eq!(command.draw_framebuffer, 8);
    assert_eq!((command.src_x0, command.src_y0, command.src_x1, command.src_y1), (0, 0, 100, 50));
    assert_eq!((command.dst_x0, command.dst_y0, command.dst_x1, command.dst_y1), (0, 0, 30, 70));
    assert_eq!(command.mask, BLIT_MASK);
    assert_eq!(
        BLIT_MASK,
        glenum::COLOR_BUFFER_BIT | glenum::DEPTH_BUFFER_BIT | glenum::STENCIL_BUFFER_BIT
    );
    assert_eq!(command.filter, TextureFilter::Nearest.to_gl_enum());
}

#[test]
fn layout_setup_commands_in_issue_order() {
    let infos = vec![
        info(SizedTextureFormat::Depth24, AttachmentType::Renderbuffer),
        info(SizedTextureFormat::Rgba8, AttachmentType::Texture),
    ];
    let layout = FramebufferLayout::plan(UVec2::new(256, 128), &infos, 3, &vec![20], &vec![21]);
    assert_eq!(
        layout.setup_commands(),
        vec![
            SetupCommand::TextureStorage {
                texture: 20,
                levels: 1,
                internal_format: glenum::RGBA8,
                width: 256,
                height: 128
            },
            SetupCommand::AttachTexture {
                framebuffer: 3,
                attachment: glenum::COLOR_ATTACHMENT0,
                texture: 20,
                level: 0
            },
            SetupCommand::RenderbufferStorage {
                renderbuffer: 21,
                internal_format: glenum::DEPTH_COMPONENT24,
                width: 256,
                height: 128
            },
            SetupCommand::AttachRenderbuffer {
                framebuffer: 3,
                attachment: glenum::DEPTH_ATTACHMENT,
                target: glenum::RENDERBUFFER,
                renderbuffer: 21
            },
        ]
    );
    assert_eq!(layout.draw_buffers(), vec![glenum::COLOR_ATTACHMENT0]);
    let fb = layout.validate(glenum::FRAMEBUFFER_COMPLETE).expect("complete");
    assert!(fb.has_depth());
    assert_eq!(fb.get_id(), 3);
}

#[test]
fn layout_rejected_by_driver() {
    let layout = FramebufferLayout::plan(UVec2::new(1, 1), &vec![], 3, &vec![], &vec![]);
    assert!(layout.setup_commands().is_empty());
    assert!(layout.draw_buffers().is_empty());
    assert_eq!(
        layout.validate(glenum::FRAMEBUFFER_INCOMPLETE_MISSING_ATTACHMENT).err(),
        Some(FramebufferError::IncompleteMissingAttachment)
    );
}

#[test]
fn default_framebuffer_is_empty() {
    let fb = Framebuffer::default();
    assert_eq!(fb.get_id(), 0);
    assert_eq!(fb.get_size(), UVec2::new(0, 0));
    assert_eq!(fb.texture_attachment_count(), 0);
    assert_eq!(fb.renderbuffer_attachment_count(), 0);
    assert!(!fb.has_depth());
    assert!(fb.clear(&Vec4::from_bits(0, 0, 0, 0)).is_empty());
    assert_eq!(fb.release(), 0);
}

#[test]
fn texture_filter_enumerants() {
    assert_eq!(TextureFilter::Nearest.to_gl_enum(), 0x2600);
    assert_eq!(TextureFilter::Linear.to_gl_enum(), 0x2601);
}

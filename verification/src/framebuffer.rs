//! Off-screen render targets: attachment classification, colour-index
//! assignment, completeness handling, and the driver commands that binding,
//! clearing and blitting amount to.
use vstd::prelude::*;
use crate::glenum;
use crate::math::{UVec2, Vec4, ONE_BITS};
use crate::texture::{FormatClass, SizedTextureFormat};

verus! {

/// Largest number of attachment requests a framebuffer accepts: the driver
/// counts objects and colour indices in signed 32-bit integers.
pub const MAX_ATTACHMENTS: usize = 0x7fff_ffff;

/// Sampling filter of a copy between surfaces.
#[derive(Clone, Copy, Debug, PartialEq, Eq, Structural)]
pub enum TextureFilter {
    Nearest,
    Linear,
}

impl TextureFilter {
    pub open spec fn spec_gl_enum(self) -> u32 {
        match self {
            TextureFilter::Nearest => glenum::NEAREST,
            TextureFilter::Linear => glenum::LINEAR,
        }
    }

    /// The driver's enumerant for this filter.
    pub fn to_gl_enum(self) -> (e: u32)
        ensures
            e == self.spec_gl_enum(),
    {
        match self {
            TextureFilter::Nearest => glenum::NEAREST,
            TextureFilter::Linear => glenum::LINEAR,
        }
    }
}

/// Why a framebuffer was not usable as a render target.
#[derive(Clone, Copy, Debug, PartialEq, Eq, Structural)]
pub enum FramebufferError {
    Unidentified,
    IncompleteAttachment,
    IncompleteMissingAttachment,
    IncompleteDrawBuffer,
    Unknown,
}

impl FramebufferError {
    /// The text shown for each error.
    pub open spec fn spec_message(self) -> Seq<char> {
        match self {
            FramebufferError::Unidentified => "Undefined framebuffer."@,
            FramebufferError::IncompleteAttachment => "Incomplete framebuffer attachment"@,
            FramebufferError::IncompleteMissingAttachment =>
                "Incomplete framebuffer. Add at least one attachment to the framebuffer."@,
            FramebufferError::IncompleteDrawBuffer =>
                "Incomplete draw buffer. Check that all attachments enabled exist in the framebuffer."@,
            FramebufferError::Unknown => "Unknown framebuffer error."@,
        }
    }

    /// Human-readable description of the error.
    pub fn message(&self) -> (text: &'static str)
        ensures
            text@ == self.spec_message(),
    {
        match self {
            FramebufferError::Unidentified => "Undefined framebuffer.",
            FramebufferError::IncompleteAttachment => "Incomplete framebuffer attachment",
            FramebufferError::IncompleteMissingAttachment =>
                "Incomplete framebuffer. Add at least one attachment to the framebuffer.",
            FramebufferError::IncompleteDrawBuffer =>
                "Incomplete draw buffer. Check that all attachments enabled exist in the framebuffer.",
            FramebufferError::Unknown => "Unknown framebuffer error.",
        }
    }
}

/// What backs an attachment.
#[derive(Clone, Copy, Debug, PartialEq, Eq, Structural)]
pub enum AttachmentType {
    Texture,
    Renderbuffer,
    Undefined,
}

/// Where an attachment sits in its framebuffer: the driver's slot enumerant
/// and, for colour attachments, the sequential draw-target index.
#[derive(Clone, Copy, Debug, PartialEq, Eq, Structural)]
pub enum AttachmentBindPoint {
    ColorAttachment(u32, i32),
    DepthAttachment(u32),
    DepthStencilAttachment(u32),
    StencilAttachment(u32),
}

impl AttachmentBindPoint {
    pub open spec fn spec_gl_enum(self) -> u32 {
        match self {
            AttachmentBindPoint::ColorAttachment(n, _) => n,
            AttachmentBindPoint::DepthAttachment(n) => n,
            AttachmentBindPoint::DepthStencilAttachment(n) => n,
            AttachmentBindPoint::StencilAttachment(n) => n,
        }
    }

    /// The driver's slot enumerant of this bind point.
    pub fn to_gl_enum(&self) -> (e: u32)
        ensures
            e == self.spec_gl_enum(),
    {
        match *self {
            AttachmentBindPoint::ColorAttachment(n, _) => n,
            AttachmentBindPoint::DepthAttachment(n) => n,
            AttachmentBindPoint::DepthStencilAttachment(n) => n,
            AttachmentBindPoint::StencilAttachment(n) => n,
        }
    }
}

/// A caller's request for one attachment.
#[derive(Clone, Copy, Debug, PartialEq, Eq, Structural)]
pub struct FramebufferAttachmentCreateInfo {
    pub format: SizedTextureFormat,
    pub attachment_type: AttachmentType,
}

impl FramebufferAttachmentCreateInfo {
    pub fn new(format: SizedTextureFormat, attachment_type: AttachmentType) -> (info:
        FramebufferAttachmentCreateInfo)
        ensures
            info.format == format,
            info.attachment_type == attachment_type,
    {
        FramebufferAttachmentCreateInfo { format, attachment_type }
    }

    pub fn get_format(&self) -> (format: SizedTextureFormat)
        ensures
            format == self.format,
    {
        self.format
    }

    pub fn get_type(&self) -> (attachment_type: AttachmentType)
        ensures
            attachment_type == self.attachment_type,
    {
        self.attachment_type
    }
}

/// One attachment of a framebuffer: the image object that backs it, its
/// format and kind, and the bind point it was attached at.
#[derive(Clone, Copy, Debug, PartialEq, Eq, Structural)]
pub struct FramebufferAttachment {
    pub id: u32,
    pub format: SizedTextureFormat,
    pub attachment_type: AttachmentType,
    pub attachment_bind_point: AttachmentBindPoint,
}

impl FramebufferAttachment {
    pub fn new(
        id: u32,
        format: SizedTextureFormat,
        attachment_type: AttachmentType,
        attachment_bind_point: AttachmentBindPoint,
    ) -> (attachment: FramebufferAttachment)
        ensures
            attachment == (FramebufferAttachment {
                id,
                format,
                attachment_type,
                attachment_bind_point,
            }),
    {
        FramebufferAttachment { id, format, attachment_type, attachment_bind_point }
    }

    pub fn get_id(&self) -> (id: u32)
        ensures
            id == self.id,
    {
        self.id
    }

    pub fn get_format(&self) -> (format: SizedTextureFormat)
        ensures
            format == self.format,
    {
        self.format
    }

    pub fn get_type(&self) -> (attachment_type: AttachmentType)
        ensures
            attachment_type == self.attachment_type,
    {
        self.attachment_type
    }

    pub fn get_bind_point(&self) -> (bind_point: AttachmentBindPoint)
        ensures
            bind_point == self.attachment_bind_point,
    {
        self.attachment_bind_point
    }
}

/// The requests of one kind, in the caller's order.
pub open spec fn spec_requests(
    infos: Seq<FramebufferAttachmentCreateInfo>,
    kind: AttachmentType,
) -> Seq<FramebufferAttachmentCreateInfo>
    decreases infos.len(),
{
    if infos.len() == 0 {
        Seq::empty()
    } else if infos.last().attachment_type == kind {
        spec_requests(infos.drop_last(), kind).push(infos.last())
    } else {
        spec_requests(infos.drop_last(), kind)
    }
}

/// Number of colour-class attachments among the first `k` of `attachments`.
pub open spec fn spec_colors_before(attachments: Seq<FramebufferAttachment>, k: int) -> int
    decreases k,
{
    if k <= 0 {
        0
    } else {
        spec_colors_before(attachments, k - 1) + if attachments[k - 1].format.spec_class()
            == FormatClass::Color {
            1int
        } else {
            0int
        }
    }
}

/// The bind point of a depth, depth-stencil or stencil format; none for a
/// colour format.
pub open spec fn spec_depth_stencil_bind_point(format: SizedTextureFormat) -> Option<
    AttachmentBindPoint,
> {
    match format.spec_class() {
        FormatClass::Depth => Some(AttachmentBindPoint::DepthAttachment(glenum::DEPTH_ATTACHMENT)),
        FormatClass::DepthStencil => Some(
            AttachmentBindPoint::DepthStencilAttachment(glenum::DEPTH_STENCIL_ATTACHMENT),
        ),
        FormatClass::Stencil => Some(
            AttachmentBindPoint::StencilAttachment(glenum::STENCIL_ATTACHMENT),
        ),
        FormatClass::Color => None,
    }
}

/// The bind point of an attachment of `format` that has `color_index` colour
/// attachments before it.
pub open spec fn spec_bind_point(format: SizedTextureFormat, color_index: int)
    -> AttachmentBindPoint {
    match spec_depth_stencil_bind_point(format) {
        Some(bind_point) => bind_point,
        None => AttachmentBindPoint::ColorAttachment(
            (glenum::COLOR_ATTACHMENT0 + color_index) as u32,
            color_index as i32,
        ),
    }
}

/// Whether any of `attachments` holds depth or stencil data.
pub open spec fn spec_any_depth(attachments: Seq<FramebufferAttachment>) -> bool {
    exists|k: int|
        0 <= k < attachments.len() && (#[trigger] attachments[k]).format.spec_class()
            != FormatClass::Color
}

/// A framebuffer as contracts see it.
pub struct FramebufferView {
    pub id: u32,
    pub size: UVec2,
    pub textures: Seq<FramebufferAttachment>,
    pub renderbuffers: Seq<FramebufferAttachment>,
    pub has_depth: bool,
}

impl FramebufferView {
    /// Number of colour attachments, over both lists.
    pub open spec fn color_count(self) -> int {
        spec_colors_before(self.textures, self.textures.len() as int) + spec_colors_before(
            self.renderbuffers,
            self.renderbuffers.len() as int,
        )
    }

    /// The invariant of every framebuffer: each attachment sits at the bind
    /// point of its format's class; colour indices count up from zero through
    /// the texture attachments and on through the renderbuffer attachments;
    /// `has_depth` tells whether a depth-class attachment exists.
    pub open spec fn wf(self) -> bool {
        &&& self.textures.len() + self.renderbuffers.len() <= MAX_ATTACHMENTS
        &&& forall|k: int|
            0 <= k < self.textures.len() ==> {
                &&& (#[trigger] self.textures[k]).attachment_type == AttachmentType::Texture
                &&& self.textures[k].attachment_bind_point == spec_bind_point(
                    self.textures[k].format,
                    spec_colors_before(self.textures, k),
                )
            }
        &&& forall|k: int|
            0 <= k < self.renderbuffers.len() ==> {
                &&& (#[trigger] self.renderbuffers[k]).attachment_type
                    == AttachmentType::Renderbuffer
                &&& self.renderbuffers[k].attachment_bind_point == spec_bind_point(
                    self.renderbuffers[k].format,
                    spec_colors_before(self.textures, self.textures.len() as int)
                        + spec_colors_before(self.renderbuffers, k),
                )
            }
        &&& self.has_depth <==> (spec_any_depth(self.textures) || spec_any_depth(
            self.renderbuffers,
        ))
    }

    /// Whether this is the framebuffer that `infos` ask for, at `size`, on
    /// the driver objects given: the k-th texture request is backed by the
    /// k-th texture object, the k-th renderbuffer request by the k-th
    /// renderbuffer object, and the invariant fixes everything else.
    pub open spec fn realizes(
        self,
        size: UVec2,
        infos: Seq<FramebufferAttachmentCreateInfo>,
        framebuffer_id: u32,
        texture_ids: Seq<u32>,
        renderbuffer_ids: Seq<u32>,
    ) -> bool {
        let texture_requests = spec_requests(infos, AttachmentType::Texture);
        let renderbuffer_requests = spec_requests(infos, AttachmentType::Renderbuffer);
        &&& self.wf()
        &&& self.id == framebuffer_id
        &&& self.size == size
        &&& self.textures.len() == texture_requests.len()
        &&& self.renderbuffers.len() == renderbuffer_requests.len()
        &&& forall|k: int|
            0 <= k < self.textures.len() ==> {
                &&& (#[trigger] self.textures[k]).id == texture_ids[k]
                &&& self.textures[k].format == texture_requests[k].format
            }
        &&& forall|k: int|
            0 <= k < self.renderbuffers.len() ==> {
                &&& (#[trigger] self.renderbuffers[k]).id == renderbuffer_ids[k]
                &&& self.renderbuffers[k].format == renderbuffer_requests[k].format
            }
    }
}

/// The count of colour attachments among the first `k` depends on those `k`
/// alone.
pub proof fn lemma_colors_before_prefix(
    a: Seq<FramebufferAttachment>,
    b: Seq<FramebufferAttachment>,
    k: int,
)
    requires
        k <= a.len(),
        k <= b.len(),
        forall|j: int| 0 <= j < k ==> a[j].format == b[j].format,
    ensures
        spec_colors_before(a, k) == spec_colors_before(b, k),
        0 <= spec_colors_before(a, k),
        k >= 0 ==> spec_colors_before(a, k) <= k,
    decreases k,
{
    if k > 0 {
        lemma_colors_before_prefix(a, b, k - 1);
    }
}

/// The requests of the two kinds together are no more than all requests.
pub proof fn lemma_requests_len(infos: Seq<FramebufferAttachmentCreateInfo>)
    ensures
        spec_requests(infos, AttachmentType::Texture).len() + spec_requests(
            infos,
            AttachmentType::Renderbuffer,
        ).len() <= infos.len(),
    decreases infos.len(),
{
    if infos.len() > 0 {
        lemma_requests_len(infos.drop_last());
    }
}

/// The requests of `kind` among `infos`, in the order in which they were given.
pub fn select_requests(infos: &Vec<FramebufferAttachmentCreateInfo>, kind: AttachmentType) -> (out:
    Vec<FramebufferAttachmentCreateInfo>)
    ensures
        out@ == spec_requests(infos@, kind),
        out@.len() <= infos@.len(),
{
    let mut out: Vec<FramebufferAttachmentCreateInfo> = Vec::new();
    let mut i: usize = 0;
    while i < infos.len()
        invariant
            i <= infos.len(),
            out@ == spec_requests(infos@.take(i as int), kind),
            out@.len() <= i,
        decreases infos.len() - i,
    {
        proof {
            assert(infos@.take(i + 1).drop_last() =~= infos@.take(i as int));
        }
        let info = infos[i];
        if info.attachment_type == kind {
            out.push(info);
        }
        i += 1;
    }
    proof {
        assert(infos@.take(i as int) =~= infos@);
    }
    out
}

/// Builds the attachments of one kind: the k-th request on the k-th object,
/// colour indices continuing from `first_color`. Returns the attachments, the
/// next free colour index, and whether a depth-class attachment is among them.
fn build_attachments(
    requests: &Vec<FramebufferAttachmentCreateInfo>,
    ids: &Vec<u32>,
    first_color: u32,
) -> (out: (Vec<FramebufferAttachment>, u32, bool))
    requires
        requests@.len() == ids@.len(),
        first_color + requests@.len() <= MAX_ATTACHMENTS,
    ensures
        out.0@.len() == requests@.len(),
        forall|k: int|
            0 <= k < requests@.len() ==> #[trigger] out.0@[k] == (FramebufferAttachment {
                id: ids@[k],
                format: requests@[k].format,
                attachment_type: requests@[k].attachment_type,
                attachment_bind_point: spec_bind_point(
                    requests@[k].format,
                    first_color + spec_colors_before(out.0@, k),
                ),
            }),
        out.1 == first_color + spec_colors_before(out.0@, requests@.len() as int),
        out.1 <= first_color + requests@.len(),
        out.2 == spec_any_depth(out.0@),
{
    let mut attachments: Vec<FramebufferAttachment> = Vec::new();
    let mut next_color: u32 = first_color;
    let mut any_depth = false;
    let mut i: usize = 0;
    while i < requests.len()
        invariant
            i <= requests@.len(),
            requests@.len() == ids@.len(),
            first_color + requests@.len() <= MAX_ATTACHMENTS,
            attachments@.len() == i,
            forall|k: int|
                0 <= k < i ==> #[trigger] attachments@[k] == (FramebufferAttachment {
                    id: ids@[k],
                    format: requests@[k].format,
                    attachment_type: requests@[k].attachment_type,
                    attachment_bind_point: spec_bind_point(
                        requests@[k].format,
                        first_color + spec_colors_before(attachments@, k),
                    ),
                }),
            next_color == first_color + spec_colors_before(attachments@, i as int),
            spec_colors_before(attachments@, i as int) <= i,
            any_depth == spec_any_depth(attachments@),
        decreases requests.len() - i,
    {
        let request = requests[i];
        let id = ids[i];
        let ghost before = attachments@;
        let bind_point = match Framebuffer::is_depth_stencil_attachment(request.format) {
            Some(bind_point) => bind_point,
            None => {
                let output_location = glenum::COLOR_ATTACHMENT0 + next_color;
                AttachmentBindPoint::ColorAttachment(output_location, next_color as i32)
            },
        };
        let attachment = FramebufferAttachment::new(
            id,
            request.format,
            request.attachment_type,
            bind_point,
        );
        attachments.push(attachment);
        match request.format.class() {
            FormatClass::Color => {
                next_color += 1;
            },
            _ => {
                any_depth = true;
            },
        }
        proof {
            assert forall|k: int| 0 <= k <= i implies spec_colors_before(attachments@, k)
                == spec_colors_before(before, k) by {
                lemma_colors_before_prefix(attachments@, before, k);
            }
            assert(attachments@[i as int] == attachment);
            if spec_any_depth(before) {
                let w = choose|k: int|
                    0 <= k < before.len() && (#[trigger] before[k]).format.spec_class()
                        != FormatClass::Color;
                assert(attachments@[w] == before[w]);
            }
            if spec_any_depth(attachments@) && !any_depth {
                let w = choose|k: int|
                    0 <= k < attachments@.len() && (#[trigger] attachments@[k]).format.spec_class()
                        != FormatClass::Color;
                assert(attachments@[w] == before[w]);
            }
        }
        i += 1;
    }
    (attachments, next_color, any_depth)
}


/// A command that prepares one attachment during construction.
#[derive(Clone, Copy, Debug, PartialEq, Eq, Structural)]
pub enum SetupCommand {
    /// Allocate immutable two-dimensional storage for a texture.
    TextureStorage { texture: u32, levels: i32, internal_format: u32, width: u32, height: u32 },
    /// Allocate storage for a renderbuffer.
    RenderbufferStorage { renderbuffer: u32, internal_format: u32, width: u32, height: u32 },
    /// Attach a level of a texture at a bind point of a framebuffer.
    AttachTexture { framebuffer: u32, attachment: u32, texture: u32, level: i32 },
    /// Attach a renderbuffer at a bind point of a framebuffer.
    AttachRenderbuffer { framebuffer: u32, attachment: u32, target: u32, renderbuffer: u32 },
}

/// A command that clears one attachment.
#[derive(Clone, Copy, Debug, PartialEq, Eq, Structural)]
pub enum ClearCommand {
    /// Clear the colour attachment at a draw-target index to a colour.
    Color { framebuffer: u32, draw_buffer: i32, value: Vec4 },
    /// Clear the depth attachment; `depth` is a single-precision bit pattern.
    Depth { framebuffer: u32, depth: u32 },
    /// Clear the combined depth-stencil attachment.
    DepthStencil { framebuffer: u32, depth: u32, stencil: i32 },
    /// Clear the stencil attachment.
    Stencil { framebuffer: u32, stencil: i32 },
}

/// Stencil value written when a combined depth-stencil attachment is cleared.
pub const DEPTH_STENCIL_CLEAR_STENCIL: i32 = 0;

/// Stencil value written when a stencil-only attachment is cleared.
pub const STENCIL_CLEAR_VALUE: i32 = 1;

/// What binding a framebuffer amounts to: the framebuffer becomes the active
/// target and the viewport is set to the rectangle given.
#[derive(Clone, Copy, Debug, PartialEq, Eq, Structural)]
pub struct BindCommand {
    pub target: u32,
    pub framebuffer: u32,
    pub viewport_x: i32,
    pub viewport_y: i32,
    pub viewport_width: u32,
    pub viewport_height: u32,
}

/// What unbinding a framebuffer amounts to: the bind points whose contents
/// the driver may discard first, if any, then the rebinding of `framebuffer`
/// at `target`.
#[derive(Debug)]
pub struct UnbindCommand {
    pub invalidate: Option<Vec<u32>>,
    pub target: u32,
    pub framebuffer: u32,
}

/// A copy of one framebuffer's rectangle into another's.
#[derive(Clone, Copy, Debug, PartialEq, Eq, Structural)]
pub struct BlitCommand {
    pub read_framebuffer: u32,
    pub draw_framebuffer: u32,
    pub src_x0: i32,
    pub src_y0: i32,
    pub src_x1: u32,
    pub src_y1: u32,
    pub dst_x0: i32,
    pub dst_y0: i32,
    pub dst_x1: u32,
    pub dst_y1: u32,
    pub mask: u32,
    pub filter: u32,
}

/// The colour, depth and stencil bits together.
pub const BLIT_MASK: u32 = 0x0000_4500;

/// The error that a completeness status stands for; none for "complete".
pub open spec fn spec_status_error(status: u32) -> Option<FramebufferError> {
    if status == glenum::FRAMEBUFFER_COMPLETE {
        None
    } else if status == glenum::FRAMEBUFFER_UNDEFINED {
        Some(FramebufferError::Unidentified)
    } else if status == glenum::FRAMEBUFFER_INCOMPLETE_ATTACHMENT {
        Some(FramebufferError::IncompleteAttachment)
    } else if status == glenum::FRAMEBUFFER_INCOMPLETE_MISSING_ATTACHMENT {
        Some(FramebufferError::IncompleteMissingAttachment)
    } else if status == glenum::FRAMEBUFFER_INCOMPLETE_DRAW_BUFFER {
        Some(FramebufferError::IncompleteDrawBuffer)
    } else {
        Some(FramebufferError::Unknown)
    }
}

/// The two commands that prepare `attachment` of a framebuffer of `size`:
/// storage first, then the attaching.
pub open spec fn spec_setup_commands(
    framebuffer: u32,
    size: UVec2,
    attachment: FramebufferAttachment,
) -> (SetupCommand, SetupCommand) {
    if attachment.attachment_type == AttachmentType::Renderbuffer {
        (
            SetupCommand::RenderbufferStorage {
                renderbuffer: attachment.id,
                internal_format: attachment.format.spec_gl_enum(),
                width: size.x,
                height: size.y,
            },
            SetupCommand::AttachRenderbuffer {
                framebuffer,
                attachment: attachment.attachment_bind_point.spec_gl_enum(),
                target: glenum::RENDERBUFFER,
                renderbuffer: attachment.id,
            },
        )
    } else {
        (
            SetupCommand::TextureStorage {
                texture: attachment.id,
                levels: 1,
                internal_format: attachment.format.spec_gl_enum(),
                width: size.x,
                height: size.y,
            },
            SetupCommand::AttachTexture {
                framebuffer,
                attachment: attachment.attachment_bind_point.spec_gl_enum(),
                texture: attachment.id,
                level: 0,
            },
        )
    }
}

/// The command that clears an attachment at `bind_point` of `framebuffer`.
pub open spec fn spec_clear_command(
    framebuffer: u32,
    bind_point: AttachmentBindPoint,
    clear_color: Vec4,
) -> ClearCommand {
    match bind_point {
        AttachmentBindPoint::ColorAttachment(_, i) => ClearCommand::Color {
            framebuffer,
            draw_buffer: i,
            value: clear_color,
        },
        AttachmentBindPoint::DepthAttachment(_) => ClearCommand::Depth {
            framebuffer,
            depth: ONE_BITS,
        },
        AttachmentBindPoint::DepthStencilAttachment(_) => ClearCommand::DepthStencil {
            framebuffer,
            depth: ONE_BITS,
            stencil: DEPTH_STENCIL_CLEAR_STENCIL,
        },
        AttachmentBindPoint::StencilAttachment(_) => ClearCommand::Stencil {
            framebuffer,
            stencil: STENCIL_CLEAR_VALUE,
        },
    }
}

/// How many texture objects and how many renderbuffer objects `infos` need.
pub fn attachment_counts(infos: &Vec<FramebufferAttachmentCreateInfo>) -> (counts: (usize, usize))
    ensures
        counts.0 == spec_requests(infos@, AttachmentType::Texture).len(),
        counts.1 == spec_requests(infos@, AttachmentType::Renderbuffer).len(),
        counts.0 + counts.1 <= infos@.len(),
{
    proof {
        lemma_requests_len(infos@);
    }
    let textures = select_requests(infos, AttachmentType::Texture);
    let renderbuffers = select_requests(infos, AttachmentType::Renderbuffer);
    (textures.len(), renderbuffers.len())
}

/// A render target that has been laid out but not yet validated by the
/// driver: which attachment sits where. It yields the commands that realise
/// it and becomes a [`Framebuffer`] once the driver reports it complete.
#[derive(Debug)]
pub struct FramebufferLayout {
    id: u32,
    size: UVec2,
    texture_attachments: Vec<FramebufferAttachment>,
    renderbuffer_attachments: Vec<FramebufferAttachment>,
    has_depth: bool,
}

impl View for FramebufferLayout {
    type V = FramebufferView;

    closed spec fn view(&self) -> FramebufferView {
        FramebufferView {
            id: self.id,
            size: self.size,
            textures: self.texture_attachments@,
            renderbuffers: self.renderbuffer_attachments@,
            has_depth: self.has_depth,
        }
    }
}

/// Appends to `commands` the two setup commands of each of `attachments`.
fn push_setup_commands(
    commands: &mut Vec<SetupCommand>,
    framebuffer: u32,
    size: UVec2,
    attachments: &Vec<FramebufferAttachment>,
)
    ensures
        final(commands)@.len() == old(commands)@.len() + 2 * attachments@.len(),
        forall|j: int| 0 <= j < old(commands)@.len() ==> final(commands)@[j] == old(commands)@[j],
        forall|k: int|
            #![trigger attachments@[k]]
            0 <= k < attachments@.len() ==> {
                &&& final(commands)@[old(commands)@.len() + 2 * k] == spec_setup_commands(
                    framebuffer,
                    size,
                    attachments@[k],
                ).0
                &&& final(commands)@[old(commands)@.len() + 2 * k + 1] == spec_setup_commands(
                    framebuffer,
                    size,
                    attachments@[k],
                ).1
            },
{
    let ghost start = commands@;
    let mut i: usize = 0;
    while i < attachments.len()
        invariant
            i <= attachments@.len(),
            commands@.len() == start.len() + 2 * i,
            forall|j: int| 0 <= j < start.len() ==> commands@[j] == start[j],
            forall|k: int|
                #![trigger attachments@[k]]
                0 <= k < i ==> {
                    &&& commands@[start.len() + 2 * k] == spec_setup_commands(
                        framebuffer,
                        size,
                        attachments@[k],
                    ).0
                    &&& commands@[start.len() + 2 * k + 1] == spec_setup_commands(
                        framebuffer,
                        size,
                        attachments@[k],
                    ).1
                },
        decreases attachments.len() - i,
    {
        let attachment = attachments[i];
        let format = attachment.format.to_gl_enum();
        let bind_point = attachment.attachment_bind_point.to_gl_enum();
        if attachment.attachment_type == AttachmentType::Renderbuffer {
            commands.push(
                SetupCommand::RenderbufferStorage {
                    renderbuffer: attachment.id,
                    internal_format: format,
                    width: size.x,
                    height: size.y,
                },
            );
            commands.push(
                SetupCommand::AttachRenderbuffer {
                    framebuffer,
                    attachment: bind_point,
                    target: glenum::RENDERBUFFER,
                    renderbuffer: attachment.id,
                },
            );
        } else {
            commands.push(
                SetupCommand::TextureStorage {
                    texture: attachment.id,
                    levels: 1,
                    internal_format: format,
                    width: size.x,
                    height: size.y,
                },
            );
            commands.push(
                SetupCommand::AttachTexture {
                    framebuffer,
                    attachment: bind_point,
                    texture: attachment.id,
                    level: 0,
                },
            );
        }
        i += 1;
    }
}

/// Appends to `out` the slot enumerant of each colour attachment among
/// `attachments`, whose colour indices continue from the length of `out`.
fn push_draw_buffers(out: &mut Vec<u32>, attachments: &Vec<FramebufferAttachment>)
    requires
        old(out)@.len() + attachments@.len() <= MAX_ATTACHMENTS,
        forall|k: int|
            0 <= k < attachments@.len() ==> (#[trigger] attachments@[k]).attachment_bind_point
                == spec_bind_point(
                attachments@[k].format,
                old(out)@.len() + spec_colors_before(attachments@, k),
            ),
    ensures
        final(out)@.len() == old(out)@.len() + spec_colors_before(
            attachments@,
            attachments@.len() as int,
        ),
        forall|j: int| 0 <= j < old(out)@.len() ==> final(out)@[j] == old(out)@[j],
        forall|j: int|
            old(out)@.len() <= j < final(out)@.len() ==> final(out)@[j] == glenum::COLOR_ATTACHMENT0
                + j,
{
    let ghost start = out@;
    let mut i: usize = 0;
    while i < attachments.len()
        invariant
            i <= attachments@.len(),
            start.len() + attachments@.len() <= MAX_ATTACHMENTS,
            forall|k: int|
                0 <= k < attachments@.len() ==> (#[trigger] attachments@[k]).attachment_bind_point
                    == spec_bind_point(
                    attachments@[k].format,
                    start.len() + spec_colors_before(attachments@, k),
                ),
            out@.len() == start.len() + spec_colors_before(attachments@, i as int),
            0 <= spec_colors_before(attachments@, i as int) <= i,
            forall|j: int| 0 <= j < start.len() ==> out@[j] == start[j],
            forall|j: int| start.len() <= j < out@.len() ==> out@[j] == glenum::COLOR_ATTACHMENT0 + j,
        decreases attachments.len() - i,
    {
        let attachment = attachments[i];
        assert(attachments@[i as int].attachment_bind_point == spec_bind_point(
            attachment.format,
            start.len() + spec_colors_before(attachments@, i as int),
        ));
        match attachment.attachment_bind_point {
            AttachmentBindPoint::ColorAttachment(output_location, _) => {
                out.push(output_location);
            },
            _ => {},
        }
        i += 1;
    }
}

impl FramebufferLayout {
    /// Lays out the render target that `infos` ask for: texture-backed
    /// attachments first, then renderbuffer-backed ones, each list in the
    /// caller's order, the k-th request of a kind on the k-th object of that
    /// kind, colour indices running from zero through both lists.
    pub fn plan(
        size: UVec2,
        infos: &Vec<FramebufferAttachmentCreateInfo>,
        framebuffer_id: u32,
        texture_ids: &Vec<u32>,
        renderbuffer_ids: &Vec<u32>,
    ) -> (layout: FramebufferLayout)
        requires
            infos@.len() <= MAX_ATTACHMENTS,
            texture_ids@.len() == spec_requests(infos@, AttachmentType::Texture).len(),
            renderbuffer_ids@.len() == spec_requests(infos@, AttachmentType::Renderbuffer).len(),
        ensures
            layout@.realizes(size, infos@, framebuffer_id, texture_ids@, renderbuffer_ids@),
    {
        proof {
            lemma_requests_len(infos@);
        }
        let texture_requests = select_requests(infos, AttachmentType::Texture);
        let renderbuffer_requests = select_requests(infos, AttachmentType::Renderbuffer);
        let (texture_attachments, texture_colors, texture_depth) = build_attachments(
            &texture_requests,
            texture_ids,
            0,
        );
        let (renderbuffer_attachments, _, renderbuffer_depth) = build_attachments(
            &renderbuffer_requests,
            renderbuffer_ids,
            texture_colors,
        );
        proof {
            lemma_requests_kind(infos@, AttachmentType::Texture);
            lemma_requests_kind(infos@, AttachmentType::Renderbuffer);
        }
        FramebufferLayout {
            id: framebuffer_id,
            size,
            texture_attachments,
            renderbuffer_attachments,
            has_depth: texture_depth || renderbuffer_depth,
        }
    }

    /// The commands that realise this layout, in the order in which they are
    /// issued: for each texture attachment its storage and then its
    /// attaching, then the same for each renderbuffer attachment.
    pub fn setup_commands(&self) -> (commands: Vec<SetupCommand>)
        ensures
            commands@.len() == 2 * (self@.textures.len() + self@.renderbuffers.len()),
            forall|k: int|
                #![trigger self@.textures[k]]
                0 <= k < self@.textures.len() ==> {
                    &&& commands@[2 * k] == spec_setup_commands(
                        self@.id,
                        self@.size,
                        self@.textures[k],
                    ).0
                    &&& commands@[2 * k + 1] == spec_setup_commands(
                        self@.id,
                        self@.size,
                        self@.textures[k],
                    ).1
                },
            forall|k: int|
                #![trigger self@.renderbuffers[k]]
                0 <= k < self@.renderbuffers.len() ==> {
                    &&& commands@[2 * self@.textures.len() + 2 * k] == spec_setup_commands(
                        self@.id,
                        self@.size,
                        self@.renderbuffers[k],
                    ).0
                    &&& commands@[2 * self@.textures.len() + 2 * k + 1] == spec_setup_commands(
                        self@.id,
                        self@.size,
                        self@.renderbuffers[k],
                    ).1
                },
    {
        let mut commands: Vec<SetupCommand> = Vec::new();
        push_setup_commands(&mut commands, self.id, self.size, &self.texture_attachments);
        push_setup_commands(&mut commands, self.id, self.size, &self.renderbuffer_attachments);
        commands
    }

    /// The draw-target list to program into the framebuffer: the slot of each
    /// colour attachment, which is the first colour slot plus its index.
    pub fn draw_buffers(&self) -> (buffers: Vec<u32>)
        requires
            self@.wf(),
        ensures
            buffers@.len() == self@.color_count(),
            forall|j: int|
                0 <= j < buffers@.len() ==> #[trigger] buffers@[j] == glenum::COLOR_ATTACHMENT0 + j,
    {
        let mut buffers: Vec<u32> = Vec::new();
        push_draw_buffers(&mut buffers, &self.texture_attachments);
        proof {
            lemma_colors_before_prefix(
                self.texture_attachments@,
                self.texture_attachments@,
                self.texture_attachments@.len() as int,
            );
        }
        push_draw_buffers(&mut buffers, &self.renderbuffer_attachments);
        buffers
    }

    /// Turns the layout into a framebuffer if the driver found it complete,
    /// and into the error that `status` stands for otherwise.
    pub fn validate(self, status: u32) -> (r: Result<Framebuffer, FramebufferError>)
        ensures
            r is Ok <==> status == glenum::FRAMEBUFFER_COMPLETE,
            r is Ok ==> r->Ok_0@ == self@,
            r is Err ==> spec_status_error(status) == Some(r->Err_0),
    {
        match Framebuffer::check_status(status) {
            Err(e) => Err(e),
            Ok(()) => Ok(
                Framebuffer {
                    id: self.id,
                    size: self.size,
                    texture_attachments: self.texture_attachments,
                    renderbuffer_attachments: self.renderbuffer_attachments,
                    has_depth: self.has_depth,
                },
            ),
        }
    }
}

/// Every request selected for a kind is of that kind.
pub proof fn lemma_requests_kind(infos: Seq<FramebufferAttachmentCreateInfo>, kind: AttachmentType)
    ensures
        forall|k: int|
            0 <= k < spec_requests(infos, kind).len() ==> (#[trigger] spec_requests(
                infos,
                kind,
            )[k]).attachment_type == kind,
    decreases infos.len(),
{
    if infos.len() > 0 {
        lemma_requests_kind(infos.drop_last(), kind);
    }
}

/// A validated render target.
#[derive(Debug)]
pub struct Framebuffer {
    id: u32,
    size: UVec2,
    texture_attachments: Vec<FramebufferAttachment>,
    renderbuffer_attachments: Vec<FramebufferAttachment>,
    has_depth: bool,
}

impl View for Framebuffer {
    type V = FramebufferView;

    closed spec fn view(&self) -> FramebufferView {
        FramebufferView {
            id: self.id,
            size: self.size,
            textures: self.texture_attachments@,
            renderbuffers: self.renderbuffer_attachments@,
            has_depth: self.has_depth,
        }
    }
}


/// Appends to `commands` the clear command of each of `attachments`.
fn push_clear_commands(
    commands: &mut Vec<ClearCommand>,
    framebuffer: u32,
    clear_color: Vec4,
    attachments: &Vec<FramebufferAttachment>,
)
    ensures
        final(commands)@.len() == old(commands)@.len() + attachments@.len(),
        forall|j: int| 0 <= j < old(commands)@.len() ==> final(commands)@[j] == old(commands)@[j],
        forall|k: int|
            #![trigger attachments@[k]]
            0 <= k < attachments@.len() ==> final(commands)@[old(commands)@.len() + k]
                == spec_clear_command(
                framebuffer,
                attachments@[k].attachment_bind_point,
                clear_color,
            ),
{
    let ghost start = commands@;
    let mut i: usize = 0;
    while i < attachments.len()
        invariant
            i <= attachments@.len(),
            commands@.len() == start.len() + i,
            forall|j: int| 0 <= j < start.len() ==> commands@[j] == start[j],
            forall|k: int|
                #![trigger attachments@[k]]
                0 <= k < i ==> commands@[start.len() + k] == spec_clear_command(
                    framebuffer,
                    attachments@[k].attachment_bind_point,
                    clear_color,
                ),
        decreases attachments.len() - i,
    {
        let command = match attachments[i].attachment_bind_point {
            AttachmentBindPoint::ColorAttachment(_, i) => ClearCommand::Color {
                framebuffer,
                draw_buffer: i,
                value: clear_color,
            },
            AttachmentBindPoint::DepthAttachment(_) => ClearCommand::Depth {
                framebuffer,
                depth: ONE_BITS,
            },
            AttachmentBindPoint::DepthStencilAttachment(_) => ClearCommand::DepthStencil {
                framebuffer,
                depth: ONE_BITS,
                stencil: DEPTH_STENCIL_CLEAR_STENCIL,
            },
            AttachmentBindPoint::StencilAttachment(_) => ClearCommand::Stencil {
                framebuffer,
                stencil: STENCIL_CLEAR_VALUE,
            },
        };
        commands.push(command);
        i += 1;
    }
}

impl Default for Framebuffer {
    /// The default render target: handle zero, no extent, no attachments.
    fn default() -> (framebuffer: Framebuffer)
        ensures
            framebuffer@.id == 0,
            framebuffer@.size == (UVec2 { x: 0, y: 0 }),
            framebuffer@.textures.len() == 0,
            framebuffer@.renderbuffers.len() == 0,
            !framebuffer@.has_depth,
            framebuffer@.wf(),
    {
        Framebuffer {
            id: 0,
            size: UVec2::new(0, 0),
            texture_attachments: Vec::new(),
            renderbuffer_attachments: Vec::new(),
            has_depth: false,
        }
    }
}

impl Framebuffer {
    /// Classifies `format`: the bind point of a depth, depth-stencil or stencil
    /// format, or nothing for a colour format.
    pub fn is_depth_stencil_attachment(format: SizedTextureFormat) -> (bind_point: Option<
        AttachmentBindPoint,
    >)
        ensures
            bind_point == spec_depth_stencil_bind_point(format),
    {
        match format.class() {
            FormatClass::Depth => Some(AttachmentBindPoint::DepthAttachment(glenum::DEPTH_ATTACHMENT)),
            FormatClass::DepthStencil => Some(
                AttachmentBindPoint::DepthStencilAttachment(glenum::DEPTH_STENCIL_ATTACHMENT),
            ),
            FormatClass::Stencil => Some(
                AttachmentBindPoint::StencilAttachment(glenum::STENCIL_ATTACHMENT),
            ),
            FormatClass::Color => None,
        }
    }

    /// Maps the driver's completeness status to the outcome of construction:
    /// success on "complete" alone, and otherwise the error the status stands for.
    pub fn check_status(status: u32) -> (r: Result<(), FramebufferError>)
        ensures
            r is Ok <==> status == glenum::FRAMEBUFFER_COMPLETE,
            r is Err ==> spec_status_error(status) == Some(r->Err_0),
    {
        if status == glenum::FRAMEBUFFER_COMPLETE {
            Ok(())
        } else if status == glenum::FRAMEBUFFER_UNDEFINED {
            Err(FramebufferError::Unidentified)
        } else if status == glenum::FRAMEBUFFER_INCOMPLETE_ATTACHMENT {
            Err(FramebufferError::IncompleteAttachment)
        } else if status == glenum::FRAMEBUFFER_INCOMPLETE_MISSING_ATTACHMENT {
            Err(FramebufferError::IncompleteMissingAttachment)
        } else if status == glenum::FRAMEBUFFER_INCOMPLETE_DRAW_BUFFER {
            Err(FramebufferError::IncompleteDrawBuffer)
        } else {
            Err(FramebufferError::Unknown)
        }
    }

    /// Constructs the render target that `attachment_create_infos` ask for,
    /// on driver objects already allocated for it, given the completeness
    /// status that the driver reported once the layout's commands had run.
    /// Only "complete" yields a framebuffer; any other status yields the
    /// error it stands for, and nothing of the layout is handed out.
    pub fn new(
        size: UVec2,
        attachment_create_infos: Vec<FramebufferAttachmentCreateInfo>,
        framebuffer_id: u32,
        texture_ids: &Vec<u32>,
        renderbuffer_ids: &Vec<u32>,
        status: u32,
    ) -> (r: Result<Framebuffer, FramebufferError>)
        requires
            attachment_create_infos@.len() <= MAX_ATTACHMENTS,
            texture_ids@.len() == spec_requests(
                attachment_create_infos@,
                AttachmentType::Texture,
            ).len(),
            renderbuffer_ids@.len() == spec_requests(
                attachment_create_infos@,
                AttachmentType::Renderbuffer,
            ).len(),
        ensures
            r is Ok <==> status == glenum::FRAMEBUFFER_COMPLETE,
            r is Ok ==> r->Ok_0@.realizes(
                size,
                attachment_create_infos@,
                framebuffer_id,
                texture_ids@,
                renderbuffer_ids@,
            ),
            r is Err ==> spec_status_error(status) == Some(r->Err_0),
    {
        let layout = FramebufferLayout::plan(
            size,
            &attachment_create_infos,
            framebuffer_id,
            texture_ids,
            renderbuffer_ids,
        );
        layout.validate(status)
    }

    /// The commands that clear every attachment, texture attachments first:
    /// a colour attachment to `clear_color` at its draw-target index, depth
    /// to one, depth-stencil to depth one and stencil zero, stencil alone to
    /// one.
    pub fn clear(&self, clear_color: &Vec4) -> (commands: Vec<ClearCommand>)
        ensures
            commands@.len() == self@.textures.len() + self@.renderbuffers.len(),
            forall|k: int|
                #![trigger self@.textures[k]]
                0 <= k < self@.textures.len() ==> commands@[k] == spec_clear_command(
                    self@.id,
                    self@.textures[k].attachment_bind_point,
                    *clear_color,
                ),
            forall|k: int|
                #![trigger self@.renderbuffers[k]]
                0 <= k < self@.renderbuffers.len() ==> commands@[self@.textures.len() + k]
                    == spec_clear_command(
                    self@.id,
                    self@.renderbuffers[k].attachment_bind_point,
                    *clear_color,
                ),
    {
        let mut commands: Vec<ClearCommand> = Vec::new();
        push_clear_commands(&mut commands, self.id, *clear_color, &self.texture_attachments);
        push_clear_commands(&mut commands, self.id, *clear_color, &self.renderbuffer_attachments);
        commands
    }

    /// Binding makes this framebuffer the active target and sets the
    /// viewport to exactly its size, from the origin.
    pub fn bind(&self) -> (command: BindCommand)
        ensures
            command == (BindCommand {
                target: glenum::FRAMEBUFFER,
                framebuffer: self@.id,
                viewport_x: 0,
                viewport_y: 0,
                viewport_width: self@.size.x,
                viewport_height: self@.size.y,
            }),
    {
        BindCommand {
            target: glenum::FRAMEBUFFER,
            framebuffer: self.id,
            viewport_x: 0,
            viewport_y: 0,
            viewport_width: self.size.x,
            viewport_height: self.size.y,
        }
    }

    /// Unbinding restores the default target. When `invalidate` is set and
    /// renderbuffer attachments exist, the bind points of exactly those are
    /// named for discarding first; texture attachments never are.
    pub fn unbind(&self, invalidate: bool) -> (command: UnbindCommand)
        ensures
            command.target == glenum::FRAMEBUFFER,
            command.framebuffer == 0,
            command.invalidate is Some <==> invalidate && self@.renderbuffers.len() > 0,
            command.invalidate is Some ==> {
                let points = command.invalidate->Some_0@;
                &&& points.len() == self@.renderbuffers.len()
                &&& forall|k: int|
                    0 <= k < points.len() ==> #[trigger] points[k]
                        == self@.renderbuffers[k].attachment_bind_point.spec_gl_enum()
            },
    {
        let invalidate_points = if self.renderbuffer_attachments.len() > 0 && invalidate {
            let mut points: Vec<u32> = Vec::new();
            let mut i: usize = 0;
            while i < self.renderbuffer_attachments.len()
                invariant
                    i <= self.renderbuffer_attachments@.len(),
                    points@.len() == i,
                    forall|k: int|
                        0 <= k < i ==> #[trigger] points@[k]
                            == self.renderbuffer_attachments@[k].attachment_bind_point.spec_gl_enum(),
                decreases self.renderbuffer_attachments.len() - i,
            {
                points.push(self.renderbuffer_attachments[i].attachment_bind_point.to_gl_enum());
                i += 1;
            }
            Some(points)
        } else {
            None
        };
        UnbindCommand { invalidate: invalidate_points, target: glenum::FRAMEBUFFER, framebuffer: 0 }
    }

    /// The texture attachment at `index`; renderbuffer attachments are not
    /// reachable this way.
    pub fn get_texture_attachment(&self, index: usize) -> (attachment: FramebufferAttachment)
        requires
            index < self@.textures.len(),
        ensures
            attachment == self@.textures[index as int],
    {
        self.texture_attachments[index]
    }

    /// Number of texture attachments.
    pub fn texture_attachment_count(&self) -> (n: usize)
        ensures
            n == self@.textures.len(),
    {
        self.texture_attachments.len()
    }

    /// Number of renderbuffer attachments.
    pub fn renderbuffer_attachment_count(&self) -> (n: usize)
        ensures
            n == self@.renderbuffers.len(),
    {
        self.renderbuffer_attachments.len()
    }

    /// Whether a depth, depth-stencil or stencil attachment exists.
    pub fn has_depth(&self) -> (b: bool)
        ensures
            b == self@.has_depth,
    {
        self.has_depth
    }

    pub fn get_id(&self) -> (id: u32)
        ensures
            id == self@.id,
    {
        self.id
    }

    pub fn get_size(&self) -> (size: UVec2)
        ensures
            size == self@.size,
    {
        self.size
    }

    /// The draw-target list of this framebuffer: one slot per colour
    /// attachment, counting up from the first colour slot.
    pub fn draw_buffers(&self) -> (buffers: Vec<u32>)
        requires
            self@.wf(),
        ensures
            buffers@.len() == self@.color_count(),
            forall|j: int|
                0 <= j < buffers@.len() ==> #[trigger] buffers@[j] == glenum::COLOR_ATTACHMENT0 + j,
    {
        let mut buffers: Vec<u32> = Vec::new();
        push_draw_buffers(&mut buffers, &self.texture_attachments);
        proof {
            lemma_colors_before_prefix(
                self.texture_attachments@,
                self.texture_attachments@,
                self.texture_attachments@.len() as int,
            );
        }
        push_draw_buffers(&mut buffers, &self.renderbuffer_attachments);
        buffers
    }

    /// Ends the framebuffer's life: the one handle to release is the
    /// framebuffer object's own; the attachments' images are not released
    /// with it.
    pub fn release(self) -> (id: u32)
        ensures
            id == self@.id,
    {
        self.id
    }

    /// A nearest-filtered copy of the colour, depth and stencil contents of
    /// the whole of `source` onto the whole of `destination`.
    pub fn blit(source: &Framebuffer, destination: &Framebuffer) -> (command: BlitCommand)
        ensures
            command == spec_blit_command(
                source@.id,
                source@.size,
                destination@.id,
                destination@.size,
            ),
    {
        BlitCommand {
            read_framebuffer: source.get_id(),
            draw_framebuffer: destination.get_id(),
            src_x0: 0,
            src_y0: 0,
            src_x1: source.get_size().x,
            src_y1: source.get_size().y,
            dst_x0: 0,
            dst_y0: 0,
            dst_x1: destination.get_size().x,
            dst_y1: destination.get_size().y,
            mask: BLIT_MASK,
            filter: glenum::NEAREST,
        }
    }

    /// A nearest-filtered copy of the colour, depth and stencil contents of
    /// the whole of `source` onto the whole of the default target, whose
    /// extent is `default_framebuffer_size`.
    pub fn blit_to_default(source: &Framebuffer, default_framebuffer_size: UVec2) -> (command:
        BlitCommand)
        ensures
            command == spec_blit_command(source@.id, source@.size, 0, default_framebuffer_size),
    {
        BlitCommand {
            read_framebuffer: source.get_id(),
            draw_framebuffer: 0,
            src_x0: 0,
            src_y0: 0,
            src_x1: source.get_size().x,
            src_y1: source.get_size().y,
            dst_x0: 0,
            dst_y0: 0,
            dst_x1: default_framebuffer_size.x,
            dst_y1: default_framebuffer_size.y,
            mask: BLIT_MASK,
            filter: glenum::NEAREST,
        }
    }
}

/// The full-surface copy from one framebuffer to another.
pub open spec fn spec_blit_command(
    source: u32,
    source_size: UVec2,
    destination: u32,
    destination_size: UVec2,
) -> BlitCommand {
    BlitCommand {
        read_framebuffer: source,
        draw_framebuffer: destination,
        src_x0: 0,
        src_y0: 0,
        src_x1: source_size.x,
        src_y1: source_size.y,
        dst_x0: 0,
        dst_y0: 0,
        dst_x1: destination_size.x,
        dst_y1: destination_size.y,
        mask: BLIT_MASK,
        filter: glenum::NEAREST,
    }
}

/// The copy mask is the union of the colour, depth and stencil bits.
pub proof fn lemma_blit_mask()
    ensures
        BLIT_MASK == glenum::COLOR_BUFFER_BIT | glenum::DEPTH_BUFFER_BIT
            | glenum::STENCIL_BUFFER_BIT,
{
    assert(0x0000_4500u32 == 0x0000_4000u32 | 0x0000_0100u32 | 0x0000_0400u32) by (bit_vector);
}




/// Whether a request asks for a depth, depth-stencil or stencil attachment
/// of a kind that is built.
pub open spec fn spec_is_depth_request(info: FramebufferAttachmentCreateInfo) -> bool {
    info.attachment_type != AttachmentType::Undefined && info.format.spec_class()
        != FormatClass::Color
}

/// Where among `infos` the `k`-th request of `kind` stands.
pub open spec fn spec_request_position(
    infos: Seq<FramebufferAttachmentCreateInfo>,
    kind: AttachmentType,
    k: int,
) -> int
    decreases infos.len(),
{
    if infos.len() == 0 {
        -1
    } else if infos.last().attachment_type == kind && spec_requests(infos.drop_last(), kind).len()
        == k {
        infos.len() - 1
    } else {
        spec_request_position(infos.drop_last(), kind, k)
    }
}

/// Selecting the requests of a kind keeps them and their order: the `k`-th
/// selected request is the request at its position, and positions grow
/// with `k`.
pub proof fn lemma_request_positions(
    infos: Seq<FramebufferAttachmentCreateInfo>,
    kind: AttachmentType,
)
    ensures
        forall|k: int|
            0 <= k < spec_requests(infos, kind).len() ==> {
                let p = #[trigger] spec_request_position(infos, kind, k);
                0 <= p < infos.len() && infos[p] == spec_requests(infos, kind)[k]
            },
        forall|k1: int, k2: int|
            0 <= k1 < k2 < spec_requests(infos, kind).len() ==> #[trigger] spec_request_position(
                infos,
                kind,
                k1,
            ) < #[trigger] spec_request_position(infos, kind, k2),
    decreases infos.len(),
{
    if infos.len() > 0 {
        let rest = infos.drop_last();
        lemma_request_positions(rest, kind);
        assert forall|k: int| 0 <= k < spec_requests(infos, kind).len() implies ({
            let p = #[trigger] spec_request_position(infos, kind, k);
            0 <= p < infos.len() && infos[p] == spec_requests(infos, kind)[k]
        }) by {
            if k < spec_requests(rest, kind).len() {
                let p = spec_request_position(rest, kind, k);
                assert(rest[p] == infos[p]);
            }
        }
        assert forall|k1: int, k2: int|
            0 <= k1 < k2 < spec_requests(infos, kind).len() implies #[trigger] spec_request_position(
            infos,
            kind,
            k1,
        ) < #[trigger] spec_request_position(infos, kind, k2) by {
            let p1 = spec_request_position(rest, kind, k1);
            assert(0 <= p1 < rest.len());
            if k2 < spec_requests(rest, kind).len() {
                let p2 = spec_request_position(rest, kind, k2);
                assert(p1 < p2);
            }
        }
    }
}

/// A framebuffer built from requests of which at most one asks for depth or
/// stencil data holds at most one depth-class attachment, over both lists.
pub proof fn lemma_at_most_one_depth_attachment(
    v: FramebufferView,
    size: UVec2,
    infos: Seq<FramebufferAttachmentCreateInfo>,
    framebuffer_id: u32,
    texture_ids: Seq<u32>,
    renderbuffer_ids: Seq<u32>,
)
    requires
        v.realizes(size, infos, framebuffer_id, texture_ids, renderbuffer_ids),
        forall|i: int, j: int|
            0 <= i < j < infos.len() ==> !(spec_is_depth_request(infos[i]) && spec_is_depth_request(
                infos[j],
            )),
    ensures
        forall|a: int, b: int|
            0 <= a < b < v.textures.len() ==> !((#[trigger] v.textures[a]).format.spec_class()
                != FormatClass::Color && (#[trigger] v.textures[b]).format.spec_class()
                != FormatClass::Color),
        forall|a: int, b: int|
            0 <= a < b < v.renderbuffers.len() ==> !((
            #[trigger] v.renderbuffers[a]).format.spec_class() != FormatClass::Color && (
            #[trigger] v.renderbuffers[b]).format.spec_class() != FormatClass::Color),
        forall|a: int, b: int|
            0 <= a < v.textures.len() && 0 <= b < v.renderbuffers.len() ==> !((
            #[trigger] v.textures[a]).format.spec_class() != FormatClass::Color && (
            #[trigger] v.renderbuffers[b]).format.spec_class() != FormatClass::Color),
{
    let textures = spec_requests(infos, AttachmentType::Texture);
    let renderbuffers = spec_requests(infos, AttachmentType::Renderbuffer);
    lemma_request_positions(infos, AttachmentType::Texture);
    lemma_request_positions(infos, AttachmentType::Renderbuffer);
    lemma_requests_kind(infos, AttachmentType::Texture);
    lemma_requests_kind(infos, AttachmentType::Renderbuffer);
    assert forall|a: int, b: int| 0 <= a < b < v.textures.len() implies !((
    #[trigger] v.textures[a]).format.spec_class() != FormatClass::Color && (
    #[trigger] v.textures[b]).format.spec_class() != FormatClass::Color) by {
        let i = spec_request_position(infos, AttachmentType::Texture, a);
        let j = spec_request_position(infos, AttachmentType::Texture, b);
        assert(infos[i] == textures[a] && infos[j] == textures[b] && i < j);
    }
    assert forall|a: int, b: int| 0 <= a < b < v.renderbuffers.len() implies !((
    #[trigger] v.renderbuffers[a]).format.spec_class() != FormatClass::Color && (
    #[trigger] v.renderbuffers[b]).format.spec_class() != FormatClass::Color) by {
        let i = spec_request_position(infos, AttachmentType::Renderbuffer, a);
        let j = spec_request_position(infos, AttachmentType::Renderbuffer, b);
        assert(infos[i] == renderbuffers[a] && infos[j] == renderbuffers[b] && i < j);
    }
    assert forall|a: int, b: int|
        0 <= a < v.textures.len() && 0 <= b < v.renderbuffers.len() implies !((
    #[trigger] v.textures[a]).format.spec_class() != FormatClass::Color && (
    #[trigger] v.renderbuffers[b]).format.spec_class() != FormatClass::Color) by {
        let i = spec_request_position(infos, AttachmentType::Texture, a);
        let j = spec_request_position(infos, AttachmentType::Renderbuffer, b);
        assert(infos[i] == textures[a] && infos[j] == renderbuffers[b]);
        assert(infos[i].attachment_type != infos[j].attachment_type);
        assert(i != j);
    }
}

} // verus!

//! The objects a framebuffer can bind to its attachment points, modelled
//! by what the completeness rules read from them: identity, storage
//! format, pixel size and initialization state.

use vstd::prelude::*;

use crate::gl;

verus! {

/// What the framebuffer reads from a renderbuffer object: its identity,
/// the internal format and size of its storage (no size until storage is
/// allocated), whether it was ever bound, and whether its contents have
/// been initialized.
#[derive(Clone, Copy, Debug, PartialEq, Eq)]
pub struct WebGLRenderbuffer {
    pub id: u32,
    pub ever_bound: bool,
    pub internal_format: u32,
    pub size: Option<(i32, i32)>,
    pub initialized: bool,
}

/// What the framebuffer reads from a texture object: its identity, the
/// target it was first bound to, and its level-zero image description.
#[derive(Clone, Copy, Debug, PartialEq, Eq)]
pub struct WebGLTexture {
    pub id: u32,
    pub target: Option<u32>,
    pub image_format: Option<u32>,
    pub image_width: i32,
    pub image_height: i32,
}

/// One attachment point's binding: a renderbuffer, or one mip level of a
/// texture.
#[derive(Clone, Copy, Debug, PartialEq, Eq)]
pub enum WebGLFramebufferAttachment {
    Renderbuffer(WebGLRenderbuffer),
    Texture { texture: WebGLTexture, level: i32 },
}

/// The object a framebuffer attachment resolves to, handed back to a
/// caller asking what is bound at an attachment point.
#[derive(Clone, Copy, Debug, PartialEq, Eq)]
pub enum WebGLFramebufferAttachmentRoot {
    Renderbuffer(WebGLRenderbuffer),
    Texture(WebGLTexture),
}

/// The answer of the render-readiness check.
#[derive(Clone, Copy, Debug, PartialEq, Eq, Structural)]
pub enum CompleteForRendering {
    Complete,
    Incomplete,
    MissingColorAttachment,
}

/// The framebuffer-level WebGL errors the attachment operations report.
#[derive(Clone, Copy, Debug, PartialEq, Eq, Structural)]
pub enum WebGLError {
    InvalidEnum,
    InvalidOperation,
    InvalidValue,
}

pub type WebGLResult<T> = Result<T, WebGLError>;

/// A command the framebuffer issues to the underlying GPU command stream.
/// The framebuffer appends commands to a log; the embedder drains the log
/// and performs them.
#[derive(Clone, Copy, Debug, PartialEq, Eq)]
pub enum WebGLCommand {
    FramebufferRenderbuffer { attachment: u32, renderbuffer: Option<u32> },
    FramebufferTexture2D { attachment: u32, textarget: u32, texture: Option<u32>, level: i32 },
    BindFramebuffer { target: u32, request: WebGLFramebufferBindingRequest },
    DeleteFramebuffer { id: u32 },
    InitializeFramebuffer { clear_bits: u32 },
}

/// How a framebuffer identifies itself when bound: by its transparent id
/// or by its opaque id.
#[derive(Clone, Copy, Debug, PartialEq, Eq, Structural)]
pub enum WebGLFramebufferBindingRequest {
    Transparent(u32),
    Opaque(u32),
}

impl WebGLFramebufferAttachment {
    /// Whether first use of a complete framebuffer must clear this
    /// attachment: a renderbuffer whose storage was never initialized.
    /// Texture attachments are initialized by their own upload path.
    pub fn needs_initialization(&self) -> (b: bool)
        ensures
            b == spec_needs_initialization(*self),
    {
        match self {
            WebGLFramebufferAttachment::Renderbuffer(rb) => !rb.initialized,
            WebGLFramebufferAttachment::Texture { .. } => false,
        }
    }

    /// Records that the attachment's contents have been initialized.
    pub fn mark_initialized(&mut self)
        ensures
            *final(self) == spec_mark_initialized(*old(self)),
    {
        match self {
            WebGLFramebufferAttachment::Renderbuffer(rb) => {
                rb.initialized = true;
            },
            WebGLFramebufferAttachment::Texture { .. } => {},
        }
    }

    /// The object this attachment is bound to.
    pub fn root(&self) -> (r: WebGLFramebufferAttachmentRoot)
        ensures
            r == spec_root(*self),
    {
        match self {
            WebGLFramebufferAttachment::Renderbuffer(rb) => {
                WebGLFramebufferAttachmentRoot::Renderbuffer(*rb)
            },
            WebGLFramebufferAttachment::Texture { texture, .. } => {
                WebGLFramebufferAttachmentRoot::Texture(*texture)
            },
        }
    }
}

pub open spec fn spec_needs_initialization(a: WebGLFramebufferAttachment) -> bool {
    match a {
        WebGLFramebufferAttachment::Renderbuffer(rb) => !rb.initialized,
        WebGLFramebufferAttachment::Texture { .. } => false,
    }
}

pub open spec fn spec_mark_initialized(a: WebGLFramebufferAttachment) -> WebGLFramebufferAttachment {
    match a {
        WebGLFramebufferAttachment::Renderbuffer(rb) => WebGLFramebufferAttachment::Renderbuffer(
            WebGLRenderbuffer { initialized: true, ..rb },
        ),
        WebGLFramebufferAttachment::Texture { .. } => a,
    }
}

pub open spec fn spec_root(a: WebGLFramebufferAttachment) -> WebGLFramebufferAttachmentRoot {
    match a {
        WebGLFramebufferAttachment::Renderbuffer(rb) => WebGLFramebufferAttachmentRoot::Renderbuffer(
            rb,
        ),
        WebGLFramebufferAttachment::Texture { texture, .. } => WebGLFramebufferAttachmentRoot::Texture(
            texture,
        ),
    }
}

/// The pixel size an attached image resolves to: a renderbuffer has a
/// size once storage is allocated; a texture always resolves its
/// level-zero image size.
pub open spec fn attachment_size(a: WebGLFramebufferAttachment) -> Option<(i32, i32)> {
    match a {
        WebGLFramebufferAttachment::Renderbuffer(rb) => rb.size,
        WebGLFramebufferAttachment::Texture { texture, .. } => Some(
            (texture.image_width, texture.image_height),
        ),
    }
}

/// The internal format an attached image resolves to, if it has one.
pub open spec fn attachment_format(a: WebGLFramebufferAttachment) -> Option<u32> {
    match a {
        WebGLFramebufferAttachment::Renderbuffer(rb) => Some(rb.internal_format),
        WebGLFramebufferAttachment::Texture { texture, .. } => texture.image_format,
    }
}

/// The formats the WebGL rules allow at attachment point `i`, numbering
/// the points color, depth, stencil, depth-stencil.
pub open spec fn allowed_format(i: int, f: u32) -> bool {
    if i == 0 {
        f == gl::RGBA4 || f == gl::RGB5_A1 || f == gl::RGB565 || f == gl::RGBA
    } else if i == 1 {
        f == gl::DEPTH_COMPONENT16
    } else if i == 2 {
        f == gl::STENCIL_INDEX8
    } else {
        f == gl::DEPTH_STENCIL
    }
}

} // verus!

//! The framebuffer attachment state machine: tracks the color, depth,
//! stencil and depth-stencil attachment points, recomputes the WebGL
//! completeness status on every mutation, and performs the one-time lazy
//! clear of uninitialized attachments when a complete framebuffer is
//! first checked for rendering.
//!
//! The completeness status is never independently settable: it is always
//! the value of the pure function `spec_status_of` on the current
//! attachment sets, which the well-formedness predicate `wf` pins down.
//!
//! GPU work is not performed here: the framebuffer appends the commands
//! it would issue to a log that the embedder drains and executes.

use vstd::prelude::*;

use crate::attachment::allowed_format;
use crate::attachment::attachment_format;
use crate::attachment::attachment_size;
use crate::attachment::spec_mark_initialized;
use crate::attachment::spec_needs_initialization;
use crate::attachment::spec_root;
use crate::attachment::CompleteForRendering;
use crate::attachment::WebGLCommand;
use crate::attachment::WebGLError;
use crate::attachment::WebGLFramebufferAttachment;
use crate::attachment::WebGLFramebufferAttachmentRoot;
use crate::attachment::WebGLFramebufferBindingRequest;
use crate::attachment::WebGLRenderbuffer;
use crate::attachment::WebGLResult;
use crate::attachment::WebGLTexture;
use crate::gl;

verus! {

/// The attachment combinations the WebGL rules reject outright: depth
/// and depth-stencil, stencil and depth-stencil, or depth and stencil
/// attached at the same time.
pub open spec fn has_conflict(
    d: Option<WebGLFramebufferAttachment>,
    s: Option<WebGLFramebufferAttachment>,
    ds: Option<WebGLFramebufferAttachment>,
) -> bool {
    (ds is Some && (d is Some || s is Some)) || (d is Some && s is Some)
}

/// One step of the completeness scan at attachment point `i` (numbering
/// color, depth, stencil, depth-stencil): an attached image whose size
/// disagrees with an earlier one stops the scan with the dimensions
/// status; a format outside the point's allowed set stops it with the
/// attachment status; otherwise the framebuffer size so far is carried
/// forward.
pub open spec fn step(a: Option<WebGLFramebufferAttachment>, i: int, fb: Option<(i32, i32)>) -> Result<
    Option<(i32, i32)>,
    u32,
> {
    match a {
        None => Ok(fb),
        Some(att) => {
            let size = attachment_size(att);
            if size is Some && fb is Some && size != fb {
                Err(gl::FRAMEBUFFER_INCOMPLETE_DIMENSIONS)
            } else {
                let fb2 = if size is Some {
                    size
                } else {
                    fb
                };
                match attachment_format(att) {
                    Some(f) => if !allowed_format(i, f) {
                        Err(gl::FRAMEBUFFER_INCOMPLETE_ATTACHMENT)
                    } else {
                        Ok(fb2)
                    },
                    None => Ok(fb2),
                }
            }
        },
    }
}

/// The completeness scan over the four attachment points in order.
pub open spec fn scan4(
    c: Option<WebGLFramebufferAttachment>,
    d: Option<WebGLFramebufferAttachment>,
    s: Option<WebGLFramebufferAttachment>,
    ds: Option<WebGLFramebufferAttachment>,
) -> Result<Option<(i32, i32)>, u32> {
    match step(c, 0, None) {
        Err(e) => Err(e),
        Ok(f0) => match step(d, 1, f0) {
            Err(e) => Err(e),
            Ok(f1) => match step(s, 2, f1) {
                Err(e) => Err(e),
                Ok(f2) => step(ds, 3, f2),
            },
        },
    }
}

/// The full status recomputation: what the status and the recorded size
/// become, given the four attachment points and the previously recorded
/// size (which survives when the scan stops early).
pub open spec fn spec_update(
    c: Option<WebGLFramebufferAttachment>,
    d: Option<WebGLFramebufferAttachment>,
    s: Option<WebGLFramebufferAttachment>,
    ds: Option<WebGLFramebufferAttachment>,
    old_size: Option<(i32, i32)>,
) -> (u32, Option<(i32, i32)>) {
    if has_conflict(d, s, ds) {
        (gl::FRAMEBUFFER_UNSUPPORTED, old_size)
    } else {
        match scan4(c, d, s, ds) {
            Err(st) => (st, old_size),
            Ok(fb) => {
                if c is Some || d is Some || s is Some || ds is Some {
                    if fb matches Some(wh) && wh.0 != 0 && wh.1 != 0 {
                        (gl::FRAMEBUFFER_COMPLETE, fb)
                    } else {
                        (gl::FRAMEBUFFER_INCOMPLETE_ATTACHMENT, fb)
                    }
                } else {
                    (gl::FRAMEBUFFER_INCOMPLETE_MISSING_ATTACHMENT, fb)
                }
            },
        }
    }
}

/// The completeness status as a pure function of the attachment sets.
pub open spec fn spec_status_of(
    c: Option<WebGLFramebufferAttachment>,
    d: Option<WebGLFramebufferAttachment>,
    s: Option<WebGLFramebufferAttachment>,
    ds: Option<WebGLFramebufferAttachment>,
) -> u32 {
    spec_update(c, d, s, ds, None).0
}

/// The slot index of a valid attachment point name, if it is one.
pub open spec fn point_index(attachment: u32) -> Option<int> {
    if attachment == gl::COLOR_ATTACHMENT0 {
        Some(0)
    } else if attachment == gl::DEPTH_ATTACHMENT {
        Some(1)
    } else if attachment == gl::STENCIL_ATTACHMENT {
        Some(2)
    } else if attachment == gl::DEPTH_STENCIL_ATTACHMENT {
        Some(3)
    } else {
        None
    }
}

/// The command that re-sends an existing attachment to the GPU.
pub open spec fn attach_command(point: u32, a: WebGLFramebufferAttachment) -> WebGLCommand {
    match a {
        WebGLFramebufferAttachment::Renderbuffer(rb) => WebGLCommand::FramebufferRenderbuffer {
            attachment: point,
            renderbuffer: Some(rb.id),
        },
        WebGLFramebufferAttachment::Texture { texture, level } => WebGLCommand::FramebufferTexture2D {
            attachment: point,
            textarget: texture.target->0,
            texture: Some(texture.id),
            level,
        },
    }
}

pub open spec fn opt_attach_command(a: Option<WebGLFramebufferAttachment>, point: u32) -> Seq<
    WebGLCommand,
> {
    match a {
        None => Seq::<WebGLCommand>::empty(),
        Some(x) => seq![attach_command(point, x)],
    }
}

/// The commands that re-send the remaining depth, stencil and
/// depth-stencil attachments after one of those points was cleared: on
/// real hardware clearing one of them can implicitly clear its siblings,
/// so they are re-sent as a driver workaround.
pub open spec fn reattach_commands(
    d: Option<WebGLFramebufferAttachment>,
    s: Option<WebGLFramebufferAttachment>,
    ds: Option<WebGLFramebufferAttachment>,
) -> Seq<WebGLCommand> {
    opt_attach_command(d, gl::DEPTH_ATTACHMENT) + opt_attach_command(s, gl::STENCIL_ATTACHMENT)
        + opt_attach_command(ds, gl::DEPTH_STENCIL_ATTACHMENT)
}

/// The clear mask of the attachments that still need their one-time
/// initialization.
pub open spec fn spec_clear_bits(
    c: Option<WebGLFramebufferAttachment>,
    d: Option<WebGLFramebufferAttachment>,
    s: Option<WebGLFramebufferAttachment>,
    ds: Option<WebGLFramebufferAttachment>,
) -> u32 {
    (if c matches Some(a) && spec_needs_initialization(a) {
        gl::COLOR_BUFFER_BIT
    } else {
        0u32
    }) | (if d matches Some(a) && spec_needs_initialization(a) {
        gl::DEPTH_BUFFER_BIT
    } else {
        0u32
    }) | (if s matches Some(a) && spec_needs_initialization(a) {
        gl::STENCIL_BUFFER_BIT
    } else {
        0u32
    }) | (if ds matches Some(a) && spec_needs_initialization(a) {
        gl::DEPTH_BUFFER_BIT | gl::STENCIL_BUFFER_BIT
    } else {
        0u32
    })
}

/// Marking an attachment initialized, lifted to an optional attachment.
pub open spec fn mark_opt(a: Option<WebGLFramebufferAttachment>) -> Option<
    WebGLFramebufferAttachment,
> {
    match a {
        None => None,
        Some(x) => Some(spec_mark_initialized(x)),
    }
}

/// An attached texture always has a first-bound target (the attach
/// operation rejects textures without one), so re-sending it never lacks
/// a target.
pub open spec fn att_target_ok(a: Option<WebGLFramebufferAttachment>) -> bool {
    a matches Some(WebGLFramebufferAttachment::Texture { texture, .. }) ==> texture.target is Some
}

struct WebGLTransparentFramebuffer {
    id: u32,
    is_deleted: bool,
    size: Option<(i32, i32)>,
    status: u32,
    color: Option<WebGLFramebufferAttachment>,
    depth: Option<WebGLFramebufferAttachment>,
    stencil: Option<WebGLFramebufferAttachment>,
    depthstencil: Option<WebGLFramebufferAttachment>,
    is_initialized: bool,
}

struct WebGLOpaqueFramebuffer {
    id: u32,
    size: (i32, i32),
}

enum WebGLFramebufferBacking {
    Transparent(WebGLTransparentFramebuffer),
    Opaque(WebGLOpaqueFramebuffer),
}

/// A WebGL framebuffer object: either a transparent framebuffer whose
/// attachments the content process manages, or an opaque framebuffer
/// (for an XR session) whose attachments are externally owned and always
/// complete.
pub struct WebGLFramebuffer {
    backing: WebGLFramebufferBacking,
    target: Option<u32>,
    commands: Vec<WebGLCommand>,
}

fn exec_attachment_size(a: &WebGLFramebufferAttachment) -> (r: Option<(i32, i32)>)
    ensures
        r == attachment_size(*a),
{
    match a {
        WebGLFramebufferAttachment::Renderbuffer(rb) => rb.size,
        WebGLFramebufferAttachment::Texture { texture, .. } => Some(
            (texture.image_width, texture.image_height),
        ),
    }
}

fn exec_attachment_format(a: &WebGLFramebufferAttachment) -> (r: Option<u32>)
    ensures
        r == attachment_format(*a),
{
    match a {
        WebGLFramebufferAttachment::Renderbuffer(rb) => Some(rb.internal_format),
        WebGLFramebufferAttachment::Texture { texture, .. } => texture.image_format,
    }
}

fn exec_allowed_format(i: usize, f: u32) -> (b: bool)
    ensures
        b == allowed_format(i as int, f),
{
    if i == 0 {
        f == gl::RGBA4 || f == gl::RGB5_A1 || f == gl::RGB565 || f == gl::RGBA
    } else if i == 1 {
        f == gl::DEPTH_COMPONENT16
    } else if i == 2 {
        f == gl::STENCIL_INDEX8
    } else {
        f == gl::DEPTH_STENCIL
    }
}

fn exec_step(a: &Option<WebGLFramebufferAttachment>, i: usize, fb: Option<(i32, i32)>) -> (r: Result<
    Option<(i32, i32)>,
    u32,
>)
    ensures
        r == step(*a, i as int, fb),
{
    match a {
        None => Ok(fb),
        Some(att) => {
            let size = exec_attachment_size(att);
            let mismatch = match (size, fb) {
                (Some(sz), Some(fz)) => sz.0 != fz.0 || sz.1 != fz.1,
                _ => false,
            };
            if mismatch {
                return Err(gl::FRAMEBUFFER_INCOMPLETE_DIMENSIONS);
            }
            let fb2 = if size.is_some() {
                size
            } else {
                fb
            };
            match exec_attachment_format(att) {
                Some(f) => {
                    if !exec_allowed_format(i, f) {
                        Err(gl::FRAMEBUFFER_INCOMPLETE_ATTACHMENT)
                    } else {
                        Ok(fb2)
                    }
                },
                None => Ok(fb2),
            }
        },
    }
}

fn exec_attach_command(a: &WebGLFramebufferAttachment, point: u32) -> (c: WebGLCommand)
    requires
        att_target_ok(Some(*a)),
    ensures
        c == attach_command(point, *a),
{
    match a {
        WebGLFramebufferAttachment::Renderbuffer(rb) => WebGLCommand::FramebufferRenderbuffer {
            attachment: point,
            renderbuffer: Some(rb.id),
        },
        WebGLFramebufferAttachment::Texture { texture, level } => {
            let tt = texture.target.unwrap();
            WebGLCommand::FramebufferTexture2D {
                attachment: point,
                textarget: tt,
                texture: Some(texture.id),
                level: *level,
            }
        },
    }
}

impl WebGLTransparentFramebuffer {
    spec fn att_at(&self, i: int) -> Option<WebGLFramebufferAttachment> {
        if i == 0 {
            self.color
        } else if i == 1 {
            self.depth
        } else if i == 2 {
            self.stencil
        } else {
            self.depthstencil
        }
    }

    spec fn wf(&self) -> bool {
        &&& self.status == spec_status_of(self.color, self.depth, self.stencil, self.depthstencil)
        &&& att_target_ok(self.color)
        &&& att_target_ok(self.depth)
        &&& att_target_ok(self.stencil)
        &&& att_target_ok(self.depthstencil)
    }

    fn get_att(&self, i: usize) -> (r: Option<WebGLFramebufferAttachment>)
        requires
            i < 4,
        ensures
            r == self.att_at(i as int),
    {
        if i == 0 {
            self.color
        } else if i == 1 {
            self.depth
        } else if i == 2 {
            self.stencil
        } else {
            self.depthstencil
        }
    }

    fn set_att(&mut self, i: usize, a: Option<WebGLFramebufferAttachment>)
        requires
            i < 4,
        ensures
            final(self).att_at(i as int) == a,
            forall|j: int| 0 <= j < 4 && j != i ==> final(self).att_at(j) == old(self).att_at(j),
            final(self).id == old(self).id,
            final(self).is_deleted == old(self).is_deleted,
            final(self).size == old(self).size,
            final(self).status == old(self).status,
            final(self).is_initialized == old(self).is_initialized,
    {
        if i == 0 {
            self.color = a;
        } else if i == 1 {
            self.depth = a;
        } else if i == 2 {
            self.stencil = a;
        } else {
            self.depthstencil = a;
        }
    }

    /// Recomputes the completeness status (and the recorded size, when
    /// the scan runs to completion) from the current attachments.
    fn update_status(&mut self)
        ensures
            ({
                let (st, sz) = spec_update(
                    old(self).color,
                    old(self).depth,
                    old(self).stencil,
                    old(self).depthstencil,
                    old(self).size,
                );
                final(self).status == st && final(self).size == sz
            }),
            final(self).color == old(self).color,
            final(self).depth == old(self).depth,
            final(self).stencil == old(self).stencil,
            final(self).depthstencil == old(self).depthstencil,
            final(self).id == old(self).id,
            final(self).is_deleted == old(self).is_deleted,
            final(self).is_initialized == old(self).is_initialized,
    {
        let has_z = self.depth.is_some();
        let has_s = self.stencil.is_some();
        let has_zs = self.depthstencil.is_some();
        if (has_zs && (has_z || has_s)) || (has_z && has_s) {
            self.status = gl::FRAMEBUFFER_UNSUPPORTED;
            return ;
        }
        let r0 = exec_step(&self.color, 0, None);
        let fb0 = match r0 {
            Err(st) => {
                self.status = st;
                return ;
            },
            Ok(f) => f,
        };
        let r1 = exec_step(&self.depth, 1, fb0);
        let fb1 = match r1 {
            Err(st) => {
                self.status = st;
                return ;
            },
            Ok(f) => f,
        };
        let r2 = exec_step(&self.stencil, 2, fb1);
        let fb2 = match r2 {
            Err(st) => {
                self.status = st;
                return ;
            },
            Ok(f) => f,
        };
        let r3 = exec_step(&self.depthstencil, 3, fb2);
        let fb3 = match r3 {
            Err(st) => {
                self.status = st;
                return ;
            },
            Ok(f) => f,
        };
        self.size = fb3;
        let attached = self.color.is_some() || self.depth.is_some() || self.stencil.is_some()
            || self.depthstencil.is_some();
        if attached {
            let nonzero = match self.size {
                Some(wh) => wh.0 != 0 && wh.1 != 0,
                None => false,
            };
            if nonzero {
                self.status = gl::FRAMEBUFFER_COMPLETE;
            } else {
                self.status = gl::FRAMEBUFFER_INCOMPLETE_ATTACHMENT;
            }
        } else {
            self.status = gl::FRAMEBUFFER_INCOMPLETE_MISSING_ATTACHMENT;
        }
    }

    /// Re-sends the remaining depth, stencil and depth-stencil
    /// attachments to the command stream.
    fn reattach_depth_stencil(&self, cmds: &mut Vec<WebGLCommand>)
        requires
            att_target_ok(self.depth),
            att_target_ok(self.stencil),
            att_target_ok(self.depthstencil),
        ensures
            final(cmds)@ == old(cmds)@ + reattach_commands(
                self.depth,
                self.stencil,
                self.depthstencil,
            ),
    {
        match &self.depth {
            Some(a) => {
                let c = exec_attach_command(a, gl::DEPTH_ATTACHMENT);
                cmds.push(c);
            },
            None => {},
        }
        match &self.stencil {
            Some(a) => {
                let c = exec_attach_command(a, gl::STENCIL_ATTACHMENT);
                cmds.push(c);
            },
            None => {},
        }
        match &self.depthstencil {
            Some(a) => {
                let c = exec_attach_command(a, gl::DEPTH_STENCIL_ATTACHMENT);
                cmds.push(c);
            },
            None => {},
        }
        proof {
            assert(cmds@ =~= old(cmds)@ + reattach_commands(
                self.depth,
                self.stencil,
                self.depthstencil,
            ));
        }
    }
}

/// A valid cube-map face target for a 2D texture attachment.
pub open spec fn is_cube_face(t: u32) -> bool {
    ||| t == gl::TEXTURE_CUBE_MAP_POSITIVE_X
    ||| t == gl::TEXTURE_CUBE_MAP_NEGATIVE_X
    ||| t == gl::TEXTURE_CUBE_MAP_POSITIVE_Y
    ||| t == gl::TEXTURE_CUBE_MAP_NEGATIVE_Y
    ||| t == gl::TEXTURE_CUBE_MAP_POSITIVE_Z
    ||| t == gl::TEXTURE_CUBE_MAP_NEGATIVE_Z
}

/// A renderbuffer attachment bound to the renderbuffer with this id.
pub open spec fn rb_matches(a: Option<WebGLFramebufferAttachment>, id: u32) -> bool {
    a matches Some(WebGLFramebufferAttachment::Renderbuffer(rb)) && rb.id == id
}

pub open spec fn clear_rb(a: Option<WebGLFramebufferAttachment>, id: u32) -> Option<
    WebGLFramebufferAttachment,
> {
    if rb_matches(a, id) {
        None
    } else {
        a
    }
}

/// A texture attachment bound to the texture with this id.
pub open spec fn tex_matches(a: Option<WebGLFramebufferAttachment>, id: u32) -> bool {
    a matches Some(WebGLFramebufferAttachment::Texture { texture, .. }) && texture.id == id
}

pub open spec fn clear_tex(a: Option<WebGLFramebufferAttachment>, id: u32) -> Option<
    WebGLFramebufferAttachment,
> {
    if tex_matches(a, id) {
        None
    } else {
        a
    }
}

fn exec_point_index(attachment: u32) -> (r: Option<usize>)
    ensures
        match r {
            Some(i) => i < 4 && point_index(attachment) == Some(i as int),
            None => point_index(attachment) is None,
        },
{
    if attachment == gl::COLOR_ATTACHMENT0 {
        Some(0)
    } else if attachment == gl::DEPTH_ATTACHMENT {
        Some(1)
    } else if attachment == gl::STENCIL_ATTACHMENT {
        Some(2)
    } else if attachment == gl::DEPTH_STENCIL_ATTACHMENT {
        Some(3)
    } else {
        None
    }
}

fn exec_rb_matches(a: &Option<WebGLFramebufferAttachment>, id: u32) -> (b: bool)
    ensures
        b == rb_matches(*a, id),
{
    match a {
        Some(WebGLFramebufferAttachment::Renderbuffer(rb)) => rb.id == id,
        _ => false,
    }
}

fn exec_tex_matches(a: &Option<WebGLFramebufferAttachment>, id: u32) -> (b: bool)
    ensures
        b == tex_matches(*a, id),
{
    match a {
        Some(WebGLFramebufferAttachment::Texture { texture, .. }) => texture.id == id,
        _ => false,
    }
}

proof fn lemma_mark_preserves_step(a: Option<WebGLFramebufferAttachment>, i: int, fb: Option<
    (i32, i32),
>)
    ensures
        step(mark_opt(a), i, fb) == step(a, i, fb),
{
    match a {
        None => {},
        Some(x) => {
            assert(attachment_size(spec_mark_initialized(x)) == attachment_size(x));
            assert(attachment_format(spec_mark_initialized(x)) == attachment_format(x));
        },
    }
}

proof fn lemma_mark_preserves_status(
    c: Option<WebGLFramebufferAttachment>,
    d: Option<WebGLFramebufferAttachment>,
    s: Option<WebGLFramebufferAttachment>,
    ds: Option<WebGLFramebufferAttachment>,
)
    ensures
        spec_status_of(mark_opt(c), mark_opt(d), mark_opt(s), mark_opt(ds)) == spec_status_of(
            c,
            d,
            s,
            ds,
        ),
{
    lemma_mark_preserves_step(c, 0, None);
    match step(c, 0, None) {
        Err(_) => {},
        Ok(f0) => {
            lemma_mark_preserves_step(d, 1, f0);
            match step(d, 1, f0) {
                Err(_) => {},
                Ok(f1) => {
                    lemma_mark_preserves_step(s, 2, f1);
                    match step(s, 2, f1) {
                        Err(_) => {},
                        Ok(f2) => {
                            lemma_mark_preserves_step(ds, 3, f2);
                        },
                    }
                },
            }
        },
    }
}

impl WebGLFramebuffer {
    /// Whether this is a transparent framebuffer (as opposed to an opaque
    /// one whose attachments are externally owned).
    pub closed spec fn is_transparent(&self) -> bool {
        self.backing matches WebGLFramebufferBacking::Transparent(_)
    }

    /// The attachment at point `i`, numbering color, depth, stencil,
    /// depth-stencil. An opaque framebuffer exposes no attachments.
    pub closed spec fn att_at(&self, i: int) -> Option<WebGLFramebufferAttachment> {
        match self.backing {
            WebGLFramebufferBacking::Transparent(t) => t.att_at(i),
            WebGLFramebufferBacking::Opaque(_) => None,
        }
    }

    /// The stored completeness status. An opaque framebuffer is always
    /// complete.
    pub closed spec fn spec_status(&self) -> u32 {
        match self.backing {
            WebGLFramebufferBacking::Transparent(t) => t.status,
            WebGLFramebufferBacking::Opaque(_) => gl::FRAMEBUFFER_COMPLETE,
        }
    }

    pub closed spec fn spec_size(&self) -> Option<(i32, i32)> {
        match self.backing {
            WebGLFramebufferBacking::Transparent(t) => t.size,
            WebGLFramebufferBacking::Opaque(o) => Some(o.size),
        }
    }

    pub closed spec fn spec_is_initialized(&self) -> bool {
        match self.backing {
            WebGLFramebufferBacking::Transparent(t) => t.is_initialized,
            WebGLFramebufferBacking::Opaque(_) => true,
        }
    }

    pub closed spec fn spec_is_deleted(&self) -> bool {
        match self.backing {
            WebGLFramebufferBacking::Transparent(t) => t.is_deleted,
            WebGLFramebufferBacking::Opaque(_) => false,
        }
    }

    pub closed spec fn spec_target(&self) -> Option<u32> {
        self.target
    }

    /// The commands issued so far and not yet drained.
    pub closed spec fn spec_commands(&self) -> Seq<WebGLCommand> {
        self.commands@
    }

    pub closed spec fn spec_id(&self) -> WebGLFramebufferBindingRequest {
        match self.backing {
            WebGLFramebufferBacking::Transparent(t) => WebGLFramebufferBindingRequest::Transparent(
                t.id,
            ),
            WebGLFramebufferBacking::Opaque(o) => WebGLFramebufferBindingRequest::Opaque(o.id),
        }
    }

    /// Validity: the stored status of a transparent framebuffer is always
    /// the pure completeness function of its current attachment sets, and
    /// attached textures carry a target.
    pub open spec fn wf(&self) -> bool {
        self.is_transparent() ==> {
            &&& self.spec_status() == spec_status_of(
                self.att_at(0),
                self.att_at(1),
                self.att_at(2),
                self.att_at(3),
            )
            &&& att_target_ok(self.att_at(0))
            &&& att_target_ok(self.att_at(1))
            &&& att_target_ok(self.att_at(2))
            &&& att_target_ok(self.att_at(3))
        }
    }

    /// A fresh transparent framebuffer: no attachments, so it is
    /// incomplete for want of one.
    pub fn new(id: u32) -> (f: Self)
        ensures
            f.wf(),
            f.is_transparent(),
            f.spec_id() == WebGLFramebufferBindingRequest::Transparent(id),
            forall|j: int| 0 <= j < 4 ==> (#[trigger] f.att_at(j)) is None,
            f.spec_status() == gl::FRAMEBUFFER_INCOMPLETE_MISSING_ATTACHMENT,
            f.spec_size() is None,
            !f.spec_is_deleted(),
            !f.spec_is_initialized(),
            f.spec_target() is None,
            f.spec_commands() == Seq::<WebGLCommand>::empty(),
    {
        WebGLFramebuffer {
            backing: WebGLFramebufferBacking::Transparent(
                WebGLTransparentFramebuffer {
                    id,
                    is_deleted: false,
                    size: None,
                    status: gl::FRAMEBUFFER_INCOMPLETE_MISSING_ATTACHMENT,
                    color: None,
                    depth: None,
                    stencil: None,
                    depthstencil: None,
                    is_initialized: false,
                },
            ),
            target: None,
            commands: Vec::new(),
        }
    }

    /// A fresh opaque framebuffer of a fixed size.
    pub fn new_opaque(id: u32, size: (i32, i32)) -> (f: Self)
        ensures
            f.wf(),
            !f.is_transparent(),
            f.spec_id() == WebGLFramebufferBindingRequest::Opaque(id),
            f.spec_status() == gl::FRAMEBUFFER_COMPLETE,
            f.spec_size() == Some(size),
            f.spec_target() is None,
            f.spec_commands() == Seq::<WebGLCommand>::empty(),
    {
        WebGLFramebuffer {
            backing: WebGLFramebufferBacking::Opaque(WebGLOpaqueFramebuffer { id, size }),
            target: None,
            commands: Vec::new(),
        }
    }

    /// How the framebuffer identifies itself when bound.
    pub fn id(&self) -> (r: WebGLFramebufferBindingRequest)
        ensures
            r == self.spec_id(),
    {
        match &self.backing {
            WebGLFramebufferBacking::Transparent(t) => WebGLFramebufferBindingRequest::Transparent(
                t.id,
            ),
            WebGLFramebufferBacking::Opaque(o) => WebGLFramebufferBindingRequest::Opaque(o.id),
        }
    }

    /// The completeness status: a pure function of the current attachment
    /// sets, so two calls without an intervening mutation return the same
    /// value.
    pub fn check_status(&self) -> (st: u32)
        requires
            self.wf(),
        ensures
            st == self.spec_status(),
            self.is_transparent() ==> st == spec_status_of(
                self.att_at(0),
                self.att_at(1),
                self.att_at(2),
                self.att_at(3),
            ),
    {
        match &self.backing {
            WebGLFramebufferBacking::Transparent(t) => t.status,
            WebGLFramebufferBacking::Opaque(_) => gl::FRAMEBUFFER_COMPLETE,
        }
    }

    pub fn is_deleted(&self) -> (b: bool)
        ensures
            b == self.spec_is_deleted(),
    {
        match &self.backing {
            WebGLFramebufferBacking::Transparent(t) => t.is_deleted,
            WebGLFramebufferBacking::Opaque(_) => false,
        }
    }

    pub fn size(&self) -> (r: Option<(i32, i32)>)
        ensures
            r == self.spec_size(),
    {
        match &self.backing {
            WebGLFramebufferBacking::Transparent(t) => t.size,
            WebGLFramebufferBacking::Opaque(o) => Some(o.size),
        }
    }

    pub fn target(&self) -> (r: Option<u32>)
        ensures
            r == self.spec_target(),
    {
        self.target
    }

    /// The object bound at an attachment point. An opaque framebuffer's
    /// attachments are not observable, so the answer there is `None` (the
    /// caller's question is itself an invalid operation).
    pub fn attachment(&self, attachment: u32) -> (r: Option<WebGLFramebufferAttachmentRoot>)
        ensures
            r == (if self.is_transparent() {
                match point_index(attachment) {
                    Some(i) => match self.att_at(i) {
                        Some(a) => Some(spec_root(a)),
                        None => None,
                    },
                    None => None,
                }
            } else {
                None
            }),
    {
        match &self.backing {
            WebGLFramebufferBacking::Opaque(_) => None,
            WebGLFramebufferBacking::Transparent(t) => {
                match exec_point_index(attachment) {
                    None => None,
                    Some(i) => {
                        match t.get_att(i) {
                            Some(a) => Some(a.root()),
                            None => None,
                        }
                    },
                }
            },
        }
    }

    /// The commands issued so far, for the embedder or a harness to read.
    pub fn commands(&self) -> (r: &Vec<WebGLCommand>)
        ensures
            r@ == self.spec_commands(),
    {
        &self.commands
    }

    /// Drains the command log, handing the pending commands to the
    /// embedder for execution.
    pub fn take_commands(&mut self) -> (cmds: Vec<WebGLCommand>)
        ensures
            cmds@ == old(self).spec_commands(),
            final(self).spec_commands() == Seq::<WebGLCommand>::empty(),
            final(self).wf() == old(self).wf(),
            final(self).is_transparent() == old(self).is_transparent(),
            forall|j: int| 0 <= j < 4 ==> (#[trigger] final(self).att_at(j)) == old(self).att_at(j),
            final(self).spec_status() == old(self).spec_status(),
            final(self).spec_size() == old(self).spec_size(),
            final(self).spec_is_initialized() == old(self).spec_is_initialized(),
            final(self).spec_is_deleted() == old(self).spec_is_deleted(),
            final(self).spec_target() == old(self).spec_target(),
            final(self).spec_id() == old(self).spec_id(),
    {
        let mut cmds: Vec<WebGLCommand> = Vec::new();
        core::mem::swap(&mut cmds, &mut self.commands);
        cmds
    }

    /// What a successful attach or detach at point `i` does: the point
    /// holds the new binding, the status and size are recomputed, the
    /// lazy-clear state is reset, and the log grows by the main command
    /// plus — when a depth, stencil or depth-stencil point was detached —
    /// the driver-workaround commands that re-send its siblings.
    pub open spec fn attach_ok_post(
        pre: Self,
        post: Self,
        i: int,
        natt: Option<WebGLFramebufferAttachment>,
        main_cmd: WebGLCommand,
    ) -> bool {
        &&& post.is_transparent()
        &&& post.att_at(i) == natt
        &&& forall|j: int| 0 <= j < 4 && j != i ==> (#[trigger] post.att_at(j)) == pre.att_at(j)
        &&& post.spec_size() == spec_update(
            post.att_at(0),
            post.att_at(1),
            post.att_at(2),
            post.att_at(3),
            pre.spec_size(),
        ).1
        &&& !post.spec_is_initialized()
        &&& post.spec_commands() == pre.spec_commands() + seq![main_cmd] + (if natt is None && 1
            <= i <= 3 {
            reattach_commands(post.att_at(1), post.att_at(2), post.att_at(3))
        } else {
            Seq::<WebGLCommand>::empty()
        })
        &&& post.spec_target() == pre.spec_target()
        &&& post.spec_is_deleted() == pre.spec_is_deleted()
        &&& post.spec_id() == pre.spec_id()
    }

    /// What attaching or detaching a renderbuffer does, for every input:
    /// which error comes on which input, and the state transition on
    /// success.
    pub open spec fn renderbuffer_post(
        pre: Self,
        post: Self,
        attachment: u32,
        rb: Option<WebGLRenderbuffer>,
        r: WebGLResult<()>,
    ) -> bool {
        if !pre.is_transparent() {
            r == Err::<(), WebGLError>(WebGLError::InvalidOperation) && post == pre
        } else {
            match point_index(attachment) {
                None => r == Err::<(), WebGLError>(WebGLError::InvalidEnum) && post == pre,
                Some(i) => match rb {
                    Some(x) => if !x.ever_bound {
                        r == Err::<(), WebGLError>(WebGLError::InvalidOperation) && post == pre
                    } else {
                        r == Ok::<(), WebGLError>(()) && Self::attach_ok_post(
                            pre,
                            post,
                            i,
                            Some(WebGLFramebufferAttachment::Renderbuffer(x)),
                            WebGLCommand::FramebufferRenderbuffer {
                                attachment,
                                renderbuffer: Some(x.id),
                            },
                        )
                    },
                    None => r == Ok::<(), WebGLError>(()) && Self::attach_ok_post(
                        pre,
                        post,
                        i,
                        None,
                        WebGLCommand::FramebufferRenderbuffer { attachment, renderbuffer: None },
                    ),
                },
            }
        }
    }

    /// Attaches a renderbuffer to an attachment point, or detaches the
    /// point when `rb` is `None`. Rejects invalid attachment points and
    /// renderbuffers that were never bound.
    pub fn renderbuffer(&mut self, attachment: u32, rb: Option<&WebGLRenderbuffer>) -> (r:
        WebGLResult<()>)
        requires
            old(self).wf(),
        ensures
            final(self).wf(),
            Self::renderbuffer_post(
                *old(self),
                *final(self),
                attachment,
                match rb {
                    Some(x) => Some(*x),
                    None => None,
                },
                r,
            ),
    {
        match &mut self.backing {
            WebGLFramebufferBacking::Opaque(_) => Err(WebGLError::InvalidOperation),
            WebGLFramebufferBacking::Transparent(t) => {
                let i = match exec_point_index(attachment) {
                    None => {
                        return Err(WebGLError::InvalidEnum);
                    },
                    Some(i) => i,
                };
                let rb_id: Option<u32> = match rb {
                    Some(x) => {
                        if !x.ever_bound {
                            return Err(WebGLError::InvalidOperation);
                        }
                        t.set_att(i, Some(WebGLFramebufferAttachment::Renderbuffer(*x)));
                        Some(x.id)
                    },
                    None => None,
                };
                self.commands.push(
                    WebGLCommand::FramebufferRenderbuffer { attachment, renderbuffer: rb_id },
                );
                if rb_id.is_none() {
                    t.set_att(i, None);
                    if i >= 1 {
                        t.reattach_depth_stencil(&mut self.commands);
                    }
                }
                t.update_status();
                t.is_initialized = false;
                proof {
                    assert(self.spec_commands() =~= old(self).spec_commands() + seq![
                        WebGLCommand::FramebufferRenderbuffer { attachment, renderbuffer: rb_id },
                    ] + (if rb_id is None && 1 <= i <= 3 {
                        reattach_commands(self.att_at(1), self.att_at(2), self.att_at(3))
                    } else {
                        Seq::<WebGLCommand>::empty()
                    }));
                }
                Ok(())
            },
        }
    }

    /// What attaching or detaching a texture level does, for every input.
    pub open spec fn texture2d_post(
        pre: Self,
        post: Self,
        attachment: u32,
        textarget: u32,
        texture: Option<WebGLTexture>,
        level: i32,
        r: WebGLResult<()>,
    ) -> bool {
        if !pre.is_transparent() {
            r == Err::<(), WebGLError>(WebGLError::InvalidOperation) && post == pre
        } else {
            match point_index(attachment) {
                None => r == Err::<(), WebGLError>(WebGLError::InvalidEnum) && post == pre,
                Some(i) => match texture {
                    Some(tex) => if level != 0 {
                        r == Err::<(), WebGLError>(WebGLError::InvalidValue) && post == pre
                    } else if !(textarget == gl::TEXTURE_2D || is_cube_face(textarget)) {
                        r == Err::<(), WebGLError>(WebGLError::InvalidEnum) && post == pre
                    } else if !(if is_cube_face(textarget) {
                        tex.target == Some(gl::TEXTURE_CUBE_MAP)
                    } else {
                        tex.target is Some
                    }) {
                        r == Err::<(), WebGLError>(WebGLError::InvalidOperation) && post == pre
                    } else {
                        r == Ok::<(), WebGLError>(()) && Self::attach_ok_post(
                            pre,
                            post,
                            i,
                            Some(WebGLFramebufferAttachment::Texture { texture: tex, level }),
                            WebGLCommand::FramebufferTexture2D {
                                attachment,
                                textarget,
                                texture: Some(tex.id),
                                level,
                            },
                        )
                    },
                    None => r == Ok::<(), WebGLError>(()) && Self::attach_ok_post(
                        pre,
                        post,
                        i,
                        None,
                        WebGLCommand::FramebufferTexture2D {
                            attachment,
                            textarget,
                            texture: None,
                            level,
                        },
                    ),
                },
            }
        }
    }

    /// Attaches one mip level of a texture to an attachment point, or
    /// detaches the point when `texture` is `None`. Only level zero can
    /// be attached; the texture target must agree with the requested
    /// texture-image target.
    pub fn texture2d(
        &mut self,
        attachment: u32,
        textarget: u32,
        texture: Option<&WebGLTexture>,
        level: i32,
    ) -> (r: WebGLResult<()>)
        requires
            old(self).wf(),
        ensures
            final(self).wf(),
            Self::texture2d_post(
                *old(self),
                *final(self),
                attachment,
                textarget,
                match texture {
                    Some(x) => Some(*x),
                    None => None,
                },
                level,
                r,
            ),
    {
        match &mut self.backing {
            WebGLFramebufferBacking::Opaque(_) => Err(WebGLError::InvalidOperation),
            WebGLFramebufferBacking::Transparent(t) => {
                let i = match exec_point_index(attachment) {
                    None => {
                        return Err(WebGLError::InvalidEnum);
                    },
                    Some(i) => i,
                };
                let tex_id: Option<u32> = match texture {
                    Some(tex) => {
                        if level != 0 {
                            return Err(WebGLError::InvalidValue);
                        }
                        let is_cube = if textarget == gl::TEXTURE_2D {
                            false
                        } else if textarget == gl::TEXTURE_CUBE_MAP_POSITIVE_X || textarget
                            == gl::TEXTURE_CUBE_MAP_NEGATIVE_X || textarget
                            == gl::TEXTURE_CUBE_MAP_POSITIVE_Y || textarget
                            == gl::TEXTURE_CUBE_MAP_NEGATIVE_Y || textarget
                            == gl::TEXTURE_CUBE_MAP_POSITIVE_Z || textarget
                            == gl::TEXTURE_CUBE_MAP_NEGATIVE_Z {
                            true
                        } else {
                            return Err(WebGLError::InvalidEnum);
                        };
                        let target_ok = match tex.target {
                            Some(tt) => if is_cube {
                                tt == gl::TEXTURE_CUBE_MAP
                            } else {
                                true
                            },
                            None => false,
                        };
                        if !target_ok {
                            return Err(WebGLError::InvalidOperation);
                        }
                        t.set_att(
                            i,
                            Some(WebGLFramebufferAttachment::Texture { texture: *tex, level }),
                        );
                        Some(tex.id)
                    },
                    None => None,
                };
                self.commands.push(
                    WebGLCommand::FramebufferTexture2D {
                        attachment,
                        textarget,
                        texture: tex_id,
                        level,
                    },
                );
                if tex_id.is_none() {
                    t.set_att(i, None);
                    if i >= 1 {
                        t.reattach_depth_stencil(&mut self.commands);
                    }
                }
                t.update_status();
                t.is_initialized = false;
                proof {
                    assert(self.spec_commands() =~= old(self).spec_commands() + seq![
                        WebGLCommand::FramebufferTexture2D {
                            attachment,
                            textarget,
                            texture: tex_id,
                            level,
                        },
                    ] + (if tex_id is None && 1 <= i <= 3 {
                        reattach_commands(self.att_at(1), self.att_at(2), self.att_at(3))
                    } else {
                        Seq::<WebGLCommand>::empty()
                    }));
                }
                Ok(())
            },
        }
    }

    /// Detaches this renderbuffer from every attachment point it is
    /// bound to, recomputing the status; if a depth, stencil or
    /// depth-stencil point was cleared, the siblings are re-sent.
    pub fn detach_renderbuffer(&mut self, rb: &WebGLRenderbuffer)
        requires
            old(self).wf(),
        ensures
            final(self).wf(),
            !old(self).is_transparent() ==> *final(self) == *old(self),
            old(self).is_transparent() ==> ({
                let any = rb_matches(old(self).att_at(0), rb.id) || rb_matches(
                    old(self).att_at(1),
                    rb.id,
                ) || rb_matches(old(self).att_at(2), rb.id) || rb_matches(
                    old(self).att_at(3),
                    rb.id,
                );
                let interesting = rb_matches(old(self).att_at(1), rb.id) || rb_matches(
                    old(self).att_at(2),
                    rb.id,
                ) || rb_matches(old(self).att_at(3), rb.id);
                &&& forall|j: int|
                    0 <= j < 4 ==> (#[trigger] final(self).att_at(j)) == clear_rb(
                        old(self).att_at(j),
                        rb.id,
                    )
                &&& final(self).spec_size() == (if any {
                    spec_update(
                        final(self).att_at(0),
                        final(self).att_at(1),
                        final(self).att_at(2),
                        final(self).att_at(3),
                        old(self).spec_size(),
                    ).1
                } else {
                    old(self).spec_size()
                })
                &&& final(self).spec_commands() == old(self).spec_commands() + (if interesting {
                    reattach_commands(
                        final(self).att_at(1),
                        final(self).att_at(2),
                        final(self).att_at(3),
                    )
                } else {
                    Seq::<WebGLCommand>::empty()
                })
                &&& final(self).spec_is_initialized() == old(self).spec_is_initialized()
                &&& final(self).spec_target() == old(self).spec_target()
                &&& final(self).spec_is_deleted() == old(self).spec_is_deleted()
                &&& final(self).spec_id() == old(self).spec_id()
                &&& final(self).is_transparent()
            }),
    {
        match &mut self.backing {
            WebGLFramebufferBacking::Opaque(_) => {},
            WebGLFramebufferBacking::Transparent(t) => {
                let mut any = false;
                let mut interesting = false;
                if exec_rb_matches(&t.color, rb.id) {
                    t.color = None;
                    any = true;
                }
                if exec_rb_matches(&t.depth, rb.id) {
                    t.depth = None;
                    any = true;
                    interesting = true;
                }
                if exec_rb_matches(&t.stencil, rb.id) {
                    t.stencil = None;
                    any = true;
                    interesting = true;
                }
                if exec_rb_matches(&t.depthstencil, rb.id) {
                    t.depthstencil = None;
                    any = true;
                    interesting = true;
                }
                if any {
                    t.update_status();
                }
                if interesting {
                    t.reattach_depth_stencil(&mut self.commands);
                }
                proof {
                    if !interesting {
                        assert(self.spec_commands() =~= old(self).spec_commands() + Seq::<
                            WebGLCommand,
                        >::empty());
                    }
                }
            },
        }
    }

    /// Detaches this texture from every attachment point it is bound to.
    pub fn detach_texture(&mut self, texture: &WebGLTexture)
        requires
            old(self).wf(),
        ensures
            final(self).wf(),
            !old(self).is_transparent() ==> *final(self) == *old(self),
            old(self).is_transparent() ==> ({
                let any = tex_matches(old(self).att_at(0), texture.id) || tex_matches(
                    old(self).att_at(1),
                    texture.id,
                ) || tex_matches(old(self).att_at(2), texture.id) || tex_matches(
                    old(self).att_at(3),
                    texture.id,
                );
                let interesting = tex_matches(old(self).att_at(1), texture.id) || tex_matches(
                    old(self).att_at(2),
                    texture.id,
                ) || tex_matches(old(self).att_at(3), texture.id);
                &&& forall|j: int|
                    0 <= j < 4 ==> (#[trigger] final(self).att_at(j)) == clear_tex(
                        old(self).att_at(j),
                        texture.id,
                    )
                &&& final(self).spec_size() == (if any {
                    spec_update(
                        final(self).att_at(0),
                        final(self).att_at(1),
                        final(self).att_at(2),
                        final(self).att_at(3),
                        old(self).spec_size(),
                    ).1
                } else {
                    old(self).spec_size()
                })
                &&& final(self).spec_commands() == old(self).spec_commands() + (if interesting {
                    reattach_commands(
                        final(self).att_at(1),
                        final(self).att_at(2),
                        final(self).att_at(3),
                    )
                } else {
                    Seq::<WebGLCommand>::empty()
                })
                &&& final(self).spec_is_initialized() == old(self).spec_is_initialized()
                &&& final(self).spec_target() == old(self).spec_target()
                &&& final(self).spec_is_deleted() == old(self).spec_is_deleted()
                &&& final(self).spec_id() == old(self).spec_id()
                &&& final(self).is_transparent()
            }),
    {
        match &mut self.backing {
            WebGLFramebufferBacking::Opaque(_) => {},
            WebGLFramebufferBacking::Transparent(t) => {
                let mut any = false;
                let mut interesting = false;
                if exec_tex_matches(&t.color, texture.id) {
                    t.color = None;
                    any = true;
                }
                if exec_tex_matches(&t.depth, texture.id) {
                    t.depth = None;
                    any = true;
                    interesting = true;
                }
                if exec_tex_matches(&t.stencil, texture.id) {
                    t.stencil = None;
                    any = true;
                    interesting = true;
                }
                if exec_tex_matches(&t.depthstencil, texture.id) {
                    t.depthstencil = None;
                    any = true;
                    interesting = true;
                }
                if any {
                    t.update_status();
                }
                if interesting {
                    t.reattach_depth_stencil(&mut self.commands);
                }
                proof {
                    if !interesting {
                        assert(self.spec_commands() =~= old(self).spec_commands() + Seq::<
                            WebGLCommand,
                        >::empty());
                    }
                }
            },
        }
    }

    /// Notes that this renderbuffer's storage was re-created: the
    /// framebuffer must redo its lazy initialization, and its status is
    /// recomputed.
    pub fn invalidate_renderbuffer(&mut self, rb: &WebGLRenderbuffer)
        requires
            old(self).wf(),
        ensures
            final(self).wf(),
            !old(self).is_transparent() ==> *final(self) == *old(self),
            old(self).is_transparent() ==> ({
                let any = rb_matches(old(self).att_at(0), rb.id) || rb_matches(
                    old(self).att_at(1),
                    rb.id,
                ) || rb_matches(old(self).att_at(2), rb.id) || rb_matches(
                    old(self).att_at(3),
                    rb.id,
                );
                if any {
                    &&& forall|j: int|
                        0 <= j < 4 ==> (#[trigger] final(self).att_at(j)) == old(self).att_at(j)
                    &&& !final(self).spec_is_initialized()
                    &&& final(self).spec_size() == spec_update(
                        old(self).att_at(0),
                        old(self).att_at(1),
                        old(self).att_at(2),
                        old(self).att_at(3),
                        old(self).spec_size(),
                    ).1
                    &&& final(self).spec_commands() == old(self).spec_commands()
                    &&& final(self).spec_target() == old(self).spec_target()
                    &&& final(self).spec_is_deleted() == old(self).spec_is_deleted()
                    &&& final(self).spec_id() == old(self).spec_id()
                    &&& final(self).is_transparent()
                } else {
                    *final(self) == *old(self)
                }
            }),
    {
        match &mut self.backing {
            WebGLFramebufferBacking::Opaque(_) => {},
            WebGLFramebufferBacking::Transparent(t) => {
                let any = exec_rb_matches(&t.color, rb.id) || exec_rb_matches(&t.depth, rb.id)
                    || exec_rb_matches(&t.stencil, rb.id) || exec_rb_matches(
                    &t.depthstencil,
                    rb.id,
                );
                if any {
                    t.is_initialized = false;
                    t.update_status();
                }
            },
        }
    }

    /// Notes that this texture's image was re-specified: the status is
    /// recomputed wherever it is attached.
    pub fn invalidate_texture(&mut self, texture: &WebGLTexture)
        requires
            old(self).wf(),
        ensures
            final(self).wf(),
            !old(self).is_transparent() ==> *final(self) == *old(self),
            old(self).is_transparent() ==> ({
                let any = tex_matches(old(self).att_at(0), texture.id) || tex_matches(
                    old(self).att_at(1),
                    texture.id,
                ) || tex_matches(old(self).att_at(2), texture.id) || tex_matches(
                    old(self).att_at(3),
                    texture.id,
                );
                if any {
                    &&& forall|j: int|
                        0 <= j < 4 ==> (#[trigger] final(self).att_at(j)) == old(self).att_at(j)
                    &&& final(self).spec_is_initialized() == old(self).spec_is_initialized()
                    &&& final(self).spec_size() == spec_update(
                        old(self).att_at(0),
                        old(self).att_at(1),
                        old(self).att_at(2),
                        old(self).att_at(3),
                        old(self).spec_size(),
                    ).1
                    &&& final(self).spec_commands() == old(self).spec_commands()
                    &&& final(self).spec_target() == old(self).spec_target()
                    &&& final(self).spec_is_deleted() == old(self).spec_is_deleted()
                    &&& final(self).spec_id() == old(self).spec_id()
                    &&& final(self).is_transparent()
                } else {
                    *final(self) == *old(self)
                }
            }),
    {
        match &mut self.backing {
            WebGLFramebufferBacking::Opaque(_) => {},
            WebGLFramebufferBacking::Transparent(t) => {
                let any = exec_tex_matches(&t.color, texture.id) || exec_tex_matches(
                    &t.depth,
                    texture.id,
                ) || exec_tex_matches(&t.stencil, texture.id) || exec_tex_matches(
                    &t.depthstencil,
                    texture.id,
                );
                if any {
                    t.update_status();
                }
            },
        }
    }

    /// Binds the framebuffer to a target, recomputing the status first:
    /// attachments may have been resized or deleted while unbound.
    pub fn bind(&mut self, target: u32)
        requires
            old(self).wf(),
        ensures
            final(self).wf(),
            forall|j: int| 0 <= j < 4 ==> (#[trigger] final(self).att_at(j)) == old(self).att_at(j),
            final(self).spec_size() == (if old(self).is_transparent() {
                spec_update(
                    old(self).att_at(0),
                    old(self).att_at(1),
                    old(self).att_at(2),
                    old(self).att_at(3),
                    old(self).spec_size(),
                ).1
            } else {
                old(self).spec_size()
            }),
            final(self).spec_target() == Some(target),
            final(self).spec_commands() == old(self).spec_commands().push(
                WebGLCommand::BindFramebuffer { target, request: old(self).spec_id() },
            ),
            final(self).spec_is_initialized() == old(self).spec_is_initialized(),
            final(self).spec_is_deleted() == old(self).spec_is_deleted(),
            final(self).spec_id() == old(self).spec_id(),
            final(self).is_transparent() == old(self).is_transparent(),
    {
        match &mut self.backing {
            WebGLFramebufferBacking::Transparent(t) => t.update_status(),
            WebGLFramebufferBacking::Opaque(_) => {},
        }
        self.target = Some(target);
        let req = self.id();
        self.commands.push(WebGLCommand::BindFramebuffer { target, request: req });
    }

    /// Marks the framebuffer deleted, once, and issues the delete
    /// command. `fallible` mirrors whether the surrounding context may
    /// already be shutting down; the recorded command is the same either
    /// way. Opaque framebuffers are not deletable this way.
    pub fn delete(&mut self, fallible: bool)
        requires
            old(self).wf(),
        ensures
            final(self).wf(),
            !old(self).is_transparent() ==> *final(self) == *old(self),
            old(self).is_transparent() && old(self).spec_is_deleted() ==> *final(self) == *old(
                self,
            ),
            old(self).is_transparent() && !old(self).spec_is_deleted() ==> ({
                &&& final(self).spec_is_deleted()
                &&& (old(self).spec_id() matches WebGLFramebufferBindingRequest::Transparent(id)
                    && final(self).spec_commands() == old(self).spec_commands().push(
                    WebGLCommand::DeleteFramebuffer { id },
                ))
                &&& forall|j: int|
                    0 <= j < 4 ==> (#[trigger] final(self).att_at(j)) == old(self).att_at(j)
                &&& final(self).spec_size() == old(self).spec_size()
                &&& final(self).spec_is_initialized() == old(self).spec_is_initialized()
                &&& final(self).spec_target() == old(self).spec_target()
                &&& final(self).spec_id() == old(self).spec_id()
                &&& final(self).is_transparent()
            }),
    {
        let _ = fallible;
        match &mut self.backing {
            WebGLFramebufferBacking::Opaque(_) => {},
            WebGLFramebufferBacking::Transparent(t) => {
                if !t.is_deleted {
                    t.is_deleted = true;
                    let id = t.id;
                    self.commands.push(WebGLCommand::DeleteFramebuffer { id });
                }
            },
        }
    }

    /// What the render-readiness check does. A framebuffer that is not
    /// complete, or complete but without a color attachment, is reported
    /// as such and nothing changes. The first check of a complete
    /// framebuffer performs the one-time lazy clear: every attachment
    /// still needing initialization is cleared (one initialize command,
    /// whose mask names them) and marked, and the framebuffer remembers
    /// that it is initialized, so later checks change nothing.
    pub open spec fn check_for_rendering_post(
        pre: Self,
        post: Self,
        r: CompleteForRendering,
    ) -> bool {
        if !pre.is_transparent() {
            r == CompleteForRendering::Complete && post == pre
        } else if pre.spec_status() != gl::FRAMEBUFFER_COMPLETE {
            r == CompleteForRendering::Incomplete && post == pre
        } else if pre.att_at(0) is None {
            r == CompleteForRendering::MissingColorAttachment && post == pre
        } else if pre.spec_is_initialized() {
            r == CompleteForRendering::Complete && post == pre
        } else {
            &&& r == CompleteForRendering::Complete
            &&& post.spec_is_initialized()
            &&& forall|j: int|
                0 <= j < 4 ==> (#[trigger] post.att_at(j)) == mark_opt(pre.att_at(j))
            &&& post.spec_commands() == pre.spec_commands().push(
                WebGLCommand::InitializeFramebuffer {
                    clear_bits: spec_clear_bits(
                        pre.att_at(0),
                        pre.att_at(1),
                        pre.att_at(2),
                        pre.att_at(3),
                    ),
                },
            )
            &&& post.spec_status() == pre.spec_status()
            &&& post.spec_size() == pre.spec_size()
            &&& post.spec_target() == pre.spec_target()
            &&& post.spec_is_deleted() == pre.spec_is_deleted()
            &&& post.spec_id() == pre.spec_id()
            &&& post.is_transparent()
        }
    }

    /// Checks whether the framebuffer can legally be rendered into, and
    /// performs the one-time lazy clear on first use.
    pub fn check_status_for_rendering(&mut self) -> (r: CompleteForRendering)
        requires
            old(self).wf(),
        ensures
            final(self).wf(),
            Self::check_for_rendering_post(*old(self), *final(self), r),
    {
        match &mut self.backing {
            WebGLFramebufferBacking::Opaque(_) => CompleteForRendering::Complete,
            WebGLFramebufferBacking::Transparent(t) => {
                if t.status != gl::FRAMEBUFFER_COMPLETE {
                    return CompleteForRendering::Incomplete;
                }
                if t.color.is_none() {
                    return CompleteForRendering::MissingColorAttachment;
                }
                if !t.is_initialized {
                    let b0: u32 = match &t.color {
                        Some(a) => if a.needs_initialization() {
                            gl::COLOR_BUFFER_BIT
                        } else {
                            0u32
                        },
                        None => 0u32,
                    };
                    let b1: u32 = match &t.depth {
                        Some(a) => if a.needs_initialization() {
                            gl::DEPTH_BUFFER_BIT
                        } else {
                            0u32
                        },
                        None => 0u32,
                    };
                    let b2: u32 = match &t.stencil {
                        Some(a) => if a.needs_initialization() {
                            gl::STENCIL_BUFFER_BIT
                        } else {
                            0u32
                        },
                        None => 0u32,
                    };
                    let b3: u32 = match &t.depthstencil {
                        Some(a) => if a.needs_initialization() {
                            gl::DEPTH_BUFFER_BIT | gl::STENCIL_BUFFER_BIT
                        } else {
                            0u32
                        },
                        None => 0u32,
                    };
                    let clear_bits: u32 = b0 | b1 | b2 | b3;
                    match &mut t.color {
                        Some(a) => a.mark_initialized(),
                        None => {},
                    }
                    match &mut t.depth {
                        Some(a) => a.mark_initialized(),
                        None => {},
                    }
                    match &mut t.stencil {
                        Some(a) => a.mark_initialized(),
                        None => {},
                    }
                    match &mut t.depthstencil {
                        Some(a) => a.mark_initialized(),
                        None => {},
                    }
                    self.commands.push(WebGLCommand::InitializeFramebuffer { clear_bits });
                    t.is_initialized = true;
                    proof {
                        lemma_mark_preserves_status(
                            old(self).att_at(0),
                            old(self).att_at(1),
                            old(self).att_at(2),
                            old(self).att_at(3),
                        );
                    }
                }
                CompleteForRendering::Complete
            },
        }
    }

    /// The completeness status is a pure function of the attachment
    /// sets: two framebuffers with the same attachments report the same
    /// status, whatever else happened to them.
    pub proof fn lemma_status_function_of_attachments(a: Self, b: Self)
        requires
            a.wf(),
            b.wf(),
            a.is_transparent(),
            b.is_transparent(),
            forall|j: int| 0 <= j < 4 ==> a.att_at(j) == b.att_at(j),
        ensures
            a.spec_status() == b.spec_status(),
    {
        assert(a.att_at(0) == b.att_at(0));
        assert(a.att_at(1) == b.att_at(1));
        assert(a.att_at(2) == b.att_at(2));
        assert(a.att_at(3) == b.att_at(3));
    }

    /// Attaching depth and depth-stencil, stencil and depth-stencil, or
    /// depth and stencil at the same time is unsupported, whatever the
    /// sizes and formats of the attached images.
    pub proof fn lemma_conflict_unsupported(
        c: Option<WebGLFramebufferAttachment>,
        d: Option<WebGLFramebufferAttachment>,
        s: Option<WebGLFramebufferAttachment>,
        ds: Option<WebGLFramebufferAttachment>,
    )
        requires
            has_conflict(d, s, ds),
        ensures
            spec_status_of(c, d, s, ds) == gl::FRAMEBUFFER_UNSUPPORTED,
    {
    }

    /// The lazy clear fires exactly once: the first render-readiness
    /// check of a complete framebuffer with a color attachment issues one
    /// initialize command, and a second check with no intervening
    /// attachment change issues nothing and changes nothing.
    pub proof fn lemma_lazy_clear_once(
        f0: Self,
        f1: Self,
        f2: Self,
        r1: CompleteForRendering,
        r2: CompleteForRendering,
    )
        requires
            f0.wf(),
            f0.is_transparent(),
            f0.spec_status() == gl::FRAMEBUFFER_COMPLETE,
            f0.att_at(0) is Some,
            !f0.spec_is_initialized(),
            Self::check_for_rendering_post(f0, f1, r1),
            Self::check_for_rendering_post(f1, f2, r2),
        ensures
            r1 == CompleteForRendering::Complete,
            r2 == CompleteForRendering::Complete,
            f1.spec_commands() == f0.spec_commands().push(
                WebGLCommand::InitializeFramebuffer {
                    clear_bits: spec_clear_bits(
                        f0.att_at(0),
                        f0.att_at(1),
                        f0.att_at(2),
                        f0.att_at(3),
                    ),
                },
            ),
            f2 == f1,
    {
        assert(f1.att_at(0) == mark_opt(f0.att_at(0)));
    }
}

} // verus!

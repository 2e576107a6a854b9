use surface_handoff::gl;
use surface_handoff::CompleteForRendering;
use surface_handoff::WebGLCommand;
use surface_handoff::WebGLFramebuffer;
use surface_handoff::WebGLFramebufferAttachmentRoot;
use surface_handoff::WebGLError;
use surface_handoff::WebGLRenderbuffer;
use surface_handoff::WebGLTexture;

fn color_rb(id: u32) -> WebGLRenderbuffer {
    WebGLRenderbuffer {
        id,
        ever_bound: true,
        internal_format: gl::RGBA4,
        size: Some((64, 64)),
        initialized: false,
    }
}

fn depth_rb(id: u32) -> WebGLRenderbuffer {
    WebGLRenderbuffer {
        id,
        ever_bound: true,
        internal_format: gl::DEPTH_COMPONENT16,
        size: Some((64, 64)),
        initialized: false,
    }
}

fn stencil_rb(id: u32) -> WebGLRenderbuffer {
    WebGLRenderbuffer {
        id,
        ever_bound: true,
        internal_format: gl::STENCIL_INDEX8,
        size: Some((64, 64)),
        initialized: false,
    }
}

fn color_tex(id: u32) -> WebGLTexture {
    WebGLTexture {
        id,
        target: Some(gl::TEXTURE_2D),
        image_format: Some(gl::RGBA),
        image_width: 64,
        image_height: 64,
    }
}

#[test]
fn fresh_framebuffer_misses_an_attachment() {
    let f = WebGLFramebuffer::new(1);
    assert_eq!(f.check_status(), gl::FRAMEBUFFER_INCOMPLETE_MISSING_ATTACHMENT);
    assert_eq!(f.size(), None);
    assert!(!f.is_deleted());
}

#[test]
fn color_attachment_completes_the_framebuffer() {
    let mut f = WebGLFramebuffer::new(1);
    assert_eq!(f.renderbuffer(gl::COLOR_ATTACHMENT0, Some(&color_rb(10))), Ok(()));
    assert_eq!(f.check_status(), gl::FRAMEBUFFER_COMPLETE);
    assert_eq!(f.size(), Some((64, 64)));
}

#[test]
fn status_is_deterministic_without_mutation() {
    let mut f = WebGLFramebuffer::new(1);
    f.renderbuffer(gl::COLOR_ATTACHMENT0, Some(&color_rb(10))).unwrap();
    let first = f.check_status();
    let second = f.check_status();
    assert_eq!(first, second);
}

#[test]
fn depth_and_depth_stencil_together_are_unsupported() {
    let mut f = WebGLFramebuffer::new(1);
    f.renderbuffer(gl::COLOR_ATTACHMENT0, Some(&color_rb(10))).unwrap();
    f.renderbuffer(gl::DEPTH_ATTACHMENT, Some(&depth_rb(11))).unwrap();
    let ds = WebGLRenderbuffer {
        id: 12,
        ever_bound: true,
        internal_format: gl::DEPTH_STENCIL,
        size: Some((1, 1)),
        initialized: false,
    };
    f.renderbuffer(gl::DEPTH_STENCIL_ATTACHMENT, Some(&ds)).unwrap();
    assert_eq!(f.check_status(), gl::FRAMEBUFFER_UNSUPPORTED);
}

#[test]
fn depth_and_stencil_together_are_unsupported_despite_matching_sizes() {
    let mut f = WebGLFramebuffer::new(1);
    f.renderbuffer(gl::DEPTH_ATTACHMENT, Some(&depth_rb(11))).unwrap();
    f.renderbuffer(gl::STENCIL_ATTACHMENT, Some(&stencil_rb(12))).unwrap();
    assert_eq!(f.check_status(), gl::FRAMEBUFFER_UNSUPPORTED);
}

#[test]
fn size_mismatch_is_incomplete_dimensions() {
    let mut f = WebGLFramebuffer::new(1);
    f.renderbuffer(gl::COLOR_ATTACHMENT0, Some(&color_rb(10))).unwrap();
    let small_depth = WebGLRenderbuffer {
        id: 11,
        ever_bound: true,
        internal_format: gl::DEPTH_COMPONENT16,
        size: Some((32, 32)),
        initialized: false,
    };
    f.renderbuffer(gl::DEPTH_ATTACHMENT, Some(&small_depth)).unwrap();
    assert_eq!(f.check_status(), gl::FRAMEBUFFER_INCOMPLETE_DIMENSIONS);
}

#[test]
fn wrong_format_is_incomplete_attachment() {
    let mut f = WebGLFramebuffer::new(1);
    let wrong = WebGLRenderbuffer {
        id: 10,
        ever_bound: true,
        internal_format: gl::DEPTH_COMPONENT16,
        size: Some((64, 64)),
        initialized: false,
    };
    f.renderbuffer(gl::COLOR_ATTACHMENT0, Some(&wrong)).unwrap();
    assert_eq!(f.check_status(), gl::FRAMEBUFFER_INCOMPLETE_ATTACHMENT);
}

#[test]
fn zero_sized_attachment_is_incomplete_attachment() {
    let mut f = WebGLFramebuffer::new(1);
    let empty = WebGLRenderbuffer {
        id: 10,
        ever_bound: true,
        internal_format: gl::RGBA4,
        size: Some((0, 64)),
        initialized: false,
    };
    f.renderbuffer(gl::COLOR_ATTACHMENT0, Some(&empty)).unwrap();
    assert_eq!(f.check_status(), gl::FRAMEBUFFER_INCOMPLETE_ATTACHMENT);
}

#[test]
fn unbound_renderbuffer_is_rejected() {
    let mut f = WebGLFramebuffer::new(1);
    let never_bound = WebGLRenderbuffer { ever_bound: false, ..color_rb(10) };
    assert_eq!(
        f.renderbuffer(gl::COLOR_ATTACHMENT0, Some(&never_bound)),
        Err(WebGLError::InvalidOperation)
    );
}

#[test]
fn unknown_attachment_point_is_rejected() {
    let mut f = WebGLFramebuffer::new(1);
    assert_eq!(f.renderbuffer(0xDEAD, Some(&color_rb(10))), Err(WebGLError::InvalidEnum));
}

#[test]
fn texture_level_other_than_zero_is_rejected() {
    let mut f = WebGLFramebuffer::new(1);
    assert_eq!(
        f.texture2d(gl::COLOR_ATTACHMENT0, gl::TEXTURE_2D, Some(&color_tex(20)), 1),
        Err(WebGLError::InvalidValue)
    );
}

#[test]
fn texture_target_mismatch_is_rejected() {
    let mut f = WebGLFramebuffer::new(1);
    let plain = color_tex(20);
    assert_eq!(
        f.texture2d(gl::COLOR_ATTACHMENT0, gl::TEXTURE_CUBE_MAP_POSITIVE_X, Some(&plain), 0),
        Err(WebGLError::InvalidOperation)
    );
    let bad_target = 0xBEEF;
    assert_eq!(
        f.texture2d(gl::COLOR_ATTACHMENT0, bad_target, Some(&plain), 0),
        Err(WebGLError::InvalidEnum)
    );
}

#[test]
fn texture_attachment_completes_and_is_reported() {
    let mut f = WebGLFramebuffer::new(1);
    let tex = color_tex(20);
    assert_eq!(f.texture2d(gl::COLOR_ATTACHMENT0, gl::TEXTURE_2D, Some(&tex), 0), Ok(()));
    assert_eq!(f.check_status(), gl::FRAMEBUFFER_COMPLETE);
    match f.attachment(gl::COLOR_ATTACHMENT0) {
        Some(WebGLFramebufferAttachmentRoot::Texture(t)) => assert_eq!(t.id, 20),
        other => panic!("unexpected attachment root: {:?}", other),
    }
}

#[test]
fn lazy_clear_fires_exactly_once() {
    let mut f = WebGLFramebuffer::new(1);
    f.renderbuffer(gl::COLOR_ATTACHMENT0, Some(&color_rb(10))).unwrap();
    let before = f.commands().len();
    let first = f.check_status_for_rendering();
    assert_eq!(first, CompleteForRendering::Complete);
    let cmds = f.commands();
    assert_eq!(cmds.len(), before + 1);
    match cmds[before] {
        WebGLCommand::InitializeFramebuffer { clear_bits } => {
            assert_eq!(clear_bits, gl::COLOR_BUFFER_BIT);
        },
        ref other => panic!("expected an initialize command, got {:?}", other),
    }
    let len_after_first = f.commands().len();
    let second = f.check_status_for_rendering();
    assert_eq!(second, CompleteForRendering::Complete);
    assert_eq!(f.commands().len(), len_after_first, "no additional clear on the second check");
}

#[test]
fn render_check_reports_incomplete_and_missing_color() {
    let mut f = WebGLFramebuffer::new(1);
    assert_eq!(f.check_status_for_rendering(), CompleteForRendering::Incomplete);
    f.renderbuffer(gl::DEPTH_ATTACHMENT, Some(&depth_rb(11))).unwrap();
    assert_eq!(f.check_status_for_rendering(), CompleteForRendering::MissingColorAttachment);
}

#[test]
fn detaching_depth_resends_the_remaining_siblings() {
    let mut f = WebGLFramebuffer::new(1);
    f.renderbuffer(gl::COLOR_ATTACHMENT0, Some(&color_rb(10))).unwrap();
    f.renderbuffer(gl::DEPTH_ATTACHMENT, Some(&depth_rb(11))).unwrap();
    let _ = f.take_commands();
    // Detaching the depth point must re-send the remaining depth/stencil
    // family attachments (the hardware-driver workaround); here none
    // remain besides the color attachment, which is not re-sent.
    assert_eq!(f.renderbuffer(gl::DEPTH_ATTACHMENT, None), Ok(()));
    let cmds = f.take_commands();
    assert_eq!(
        cmds,
        vec![WebGLCommand::FramebufferRenderbuffer {
            attachment: gl::DEPTH_ATTACHMENT,
            renderbuffer: None,
        }]
    );
}

#[test]
fn detaching_stencil_resends_surviving_depth() {
    let mut f = WebGLFramebuffer::new(1);
    f.renderbuffer(gl::DEPTH_ATTACHMENT, Some(&depth_rb(11))).unwrap();
    f.renderbuffer(gl::STENCIL_ATTACHMENT, Some(&stencil_rb(12))).unwrap();
    let _ = f.take_commands();
    assert_eq!(f.renderbuffer(gl::STENCIL_ATTACHMENT, None), Ok(()));
    let cmds = f.take_commands();
    assert_eq!(
        cmds,
        vec![
            WebGLCommand::FramebufferRenderbuffer {
                attachment: gl::STENCIL_ATTACHMENT,
                renderbuffer: None,
            },
            WebGLCommand::FramebufferRenderbuffer {
                attachment: gl::DEPTH_ATTACHMENT,
                renderbuffer: Some(11),
            },
        ]
    );
}

#[test]
fn detach_renderbuffer_clears_every_matching_point() {
    let mut f = WebGLFramebuffer::new(1);
    let rb = color_rb(10);
    f.renderbuffer(gl::COLOR_ATTACHMENT0, Some(&rb)).unwrap();
    f.detach_renderbuffer(&rb);
    assert_eq!(f.check_status(), gl::FRAMEBUFFER_INCOMPLETE_MISSING_ATTACHMENT);
    assert!(f.attachment(gl::COLOR_ATTACHMENT0).is_none());
}

#[test]
fn detach_texture_clears_every_matching_point() {
    let mut f = WebGLFramebuffer::new(1);
    let tex = color_tex(20);
    f.texture2d(gl::COLOR_ATTACHMENT0, gl::TEXTURE_2D, Some(&tex), 0).unwrap();
    f.detach_texture(&tex);
    assert_eq!(f.check_status(), gl::FRAMEBUFFER_INCOMPLETE_MISSING_ATTACHMENT);
}

#[test]
fn invalidating_a_renderbuffer_rearms_the_lazy_clear() {
    let mut f = WebGLFramebuffer::new(1);
    let rb = color_rb(10);
    f.renderbuffer(gl::COLOR_ATTACHMENT0, Some(&rb)).unwrap();
    assert_eq!(f.check_status_for_rendering(), CompleteForRendering::Complete);
    let n1 = f.commands().len();
    f.invalidate_renderbuffer(&rb);
    assert_eq!(f.check_status_for_rendering(), CompleteForRendering::Complete);
    assert_eq!(f.commands().len(), n1 + 1, "the clear fires again after invalidation");
}

#[test]
fn delete_marks_once_and_issues_one_command() {
    let mut f = WebGLFramebuffer::new(5);
    let _ = f.take_commands();
    f.delete(false);
    assert!(f.is_deleted());
    f.delete(true);
    let cmds = f.take_commands();
    assert_eq!(cmds, vec![WebGLCommand::DeleteFramebuffer { id: 5 }]);
}

#[test]
fn bind_records_the_target_and_issues_the_bind_command() {
    let mut f = WebGLFramebuffer::new(6);
    let _ = f.take_commands();
    f.bind(gl::FRAMEBUFFER);
    assert_eq!(f.target(), Some(gl::FRAMEBUFFER));
    let cmds = f.take_commands();
    assert_eq!(cmds.len(), 1);
}

#[test]
fn opaque_framebuffer_is_always_complete() {
    let mut f = WebGLFramebuffer::new_opaque(9, (256, 128));
    assert_eq!(f.check_status(), gl::FRAMEBUFFER_COMPLETE);
    assert_eq!(f.check_status_for_rendering(), CompleteForRendering::Complete);
    assert_eq!(f.size(), Some((256, 128)));
    assert_eq!(f.renderbuffer(gl::COLOR_ATTACHMENT0, None), Err(WebGLError::InvalidOperation));
    assert!(!f.is_deleted());
}

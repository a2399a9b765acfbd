use luminance_gl::framebuffer::{
    color_attachment, get_framebuffer_status, new_framebuffer_plan, DrawBuffers, IncompleteReason, RenderbufferStorage,
};
use luminance_gl::glenum;

#[test]
fn framebuffer_statuses() {
    assert_eq!(get_framebuffer_status(glenum::FRAMEBUFFER_COMPLETE), Ok(()));
    assert_eq!(get_framebuffer_status(glenum::FRAMEBUFFER_UNDEFINED), Err(IncompleteReason::Undefined));
    assert_eq!(
        get_framebuffer_status(glenum::FRAMEBUFFER_INCOMPLETE_ATTACHMENT),
        Err(IncompleteReason::IncompleteAttachment)
    );
    assert_eq!(
        get_framebuffer_status(glenum::FRAMEBUFFER_INCOMPLETE_MISSING_ATTACHMENT),
        Err(IncompleteReason::MissingAttachment)
    );
    assert_eq!(
        get_framebuffer_status(glenum::FRAMEBUFFER_INCOMPLETE_DRAW_BUFFER),
        Err(IncompleteReason::IncompleteDrawBuffer)
    );
    assert_eq!(
        get_framebuffer_status(glenum::FRAMEBUFFER_INCOMPLETE_READ_BUFFER),
        Err(IncompleteReason::IncompleteReadBuffer)
    );
    assert_eq!(get_framebuffer_status(glenum::FRAMEBUFFER_UNSUPPORTED), Err(IncompleteReason::Unsupported));
    assert_eq!(
        get_framebuffer_status(glenum::FRAMEBUFFER_INCOMPLETE_MULTISAMPLE),
        Err(IncompleteReason::IncompleteMultisample)
    );
    assert_eq!(
        get_framebuffer_status(glenum::FRAMEBUFFER_INCOMPLETE_LAYER_TARGETS),
        Err(IncompleteReason::IncompleteLayerTargets)
    );
}

#[test]
fn framebuffer_plans() {
    let plan = new_framebuffer_plan(2, false, 640, 480);
    assert_eq!((plan.width, plan.height), (640, 480));
    assert_eq!(
        plan.draw_buffers,
        DrawBuffers::Attachments(vec![glenum::COLOR_ATTACHMENT0, glenum::COLOR_ATTACHMENT0 + 1])
    );
    assert_eq!(plan.textures_needed, 2);
    assert_eq!(
        plan.depth_renderbuffer,
        Some(RenderbufferStorage { internal_format: glenum::DEPTH_COMPONENT32F, width: 640, height: 480 })
    );

    let plan = new_framebuffer_plan(0, true, 16, 8);
    assert_eq!((plan.width, plan.height), (16, 8));
    assert_eq!(plan.draw_buffers, DrawBuffers::NoBuffer);
    assert_eq!(plan.textures_needed, 1);
    assert_eq!(plan.depth_renderbuffer, None);
}

#[test]
fn color_attachments() {
    assert_eq!(color_attachment(0), glenum::COLOR_ATTACHMENT0);
    assert_eq!(color_attachment(3), glenum::COLOR_ATTACHMENT0 + 3);
}

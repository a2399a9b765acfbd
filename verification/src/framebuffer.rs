//! Framebuffers: attachments, depth renderbuffer and completeness status.
use vstd::prelude::*;

use crate::glenum;
use crate::state::{Bind, GLState, GLStateView, GlCommand};

verus! {

/// Why a framebuffer is incomplete.
#[derive(Clone, Copy, Debug, PartialEq, Eq, Structural)]
pub enum IncompleteReason {
    Undefined,
    IncompleteAttachment,
    MissingAttachment,
    IncompleteDrawBuffer,
    IncompleteReadBuffer,
    Unsupported,
    IncompleteMultisample,
    IncompleteLayerTargets,
}

/// The completeness of a framebuffer, given the status the context reports, for the statuses the
/// context defines; `None` for any other value.
pub open spec fn framebuffer_status_spec(status: u32) -> Option<Result<(), IncompleteReason>> {
    if status == glenum::FRAMEBUFFER_COMPLETE {
        Some(Ok(()))
    } else if status == glenum::FRAMEBUFFER_UNDEFINED {
        Some(Err(IncompleteReason::Undefined))
    } else if status == glenum::FRAMEBUFFER_INCOMPLETE_ATTACHMENT {
        Some(Err(IncompleteReason::IncompleteAttachment))
    } else if status == glenum::FRAMEBUFFER_INCOMPLETE_MISSING_ATTACHMENT {
        Some(Err(IncompleteReason::MissingAttachment))
    } else if status == glenum::FRAMEBUFFER_INCOMPLETE_DRAW_BUFFER {
        Some(Err(IncompleteReason::IncompleteDrawBuffer))
    } else if status == glenum::FRAMEBUFFER_INCOMPLETE_READ_BUFFER {
        Some(Err(IncompleteReason::IncompleteReadBuffer))
    } else if status == glenum::FRAMEBUFFER_UNSUPPORTED {
        Some(Err(IncompleteReason::Unsupported))
    } else if status == glenum::FRAMEBUFFER_INCOMPLETE_MULTISAMPLE {
        Some(Err(IncompleteReason::IncompleteMultisample))
    } else if status == glenum::FRAMEBUFFER_INCOMPLETE_LAYER_TARGETS {
        Some(Err(IncompleteReason::IncompleteLayerTargets))
    } else {
        None
    }
}

/// Interpret the status the context reports for a framebuffer. The context only reports the
/// statuses it defines; any other value is a broken context, which the backend does not accept.
pub fn get_framebuffer_status(status: u32) -> (r: Result<(), IncompleteReason>)
    requires
        framebuffer_status_spec(status) is Some,
    ensures
        Some(r) == framebuffer_status_spec(status),
{
    if status == glenum::FRAMEBUFFER_COMPLETE {
        Ok(())
    } else if status == glenum::FRAMEBUFFER_UNDEFINED {
        Err(IncompleteReason::Undefined)
    } else if status == glenum::FRAMEBUFFER_INCOMPLETE_ATTACHMENT {
        Err(IncompleteReason::IncompleteAttachment)
    } else if status == glenum::FRAMEBUFFER_INCOMPLETE_MISSING_ATTACHMENT {
        Err(IncompleteReason::MissingAttachment)
    } else if status == glenum::FRAMEBUFFER_INCOMPLETE_DRAW_BUFFER {
        Err(IncompleteReason::IncompleteDrawBuffer)
    } else if status == glenum::FRAMEBUFFER_INCOMPLETE_READ_BUFFER {
        Err(IncompleteReason::IncompleteReadBuffer)
    } else if status == glenum::FRAMEBUFFER_UNSUPPORTED {
        Err(IncompleteReason::Unsupported)
    } else if status == glenum::FRAMEBUFFER_INCOMPLETE_MULTISAMPLE {
        Err(IncompleteReason::IncompleteMultisample)
    } else {
        Err(IncompleteReason::IncompleteLayerTargets)
    }
}

/// The color buffers a framebuffer draws to: none (`DrawBuffer(NONE)`), or the given
/// attachments (`DrawBuffers`).
#[derive(Clone, Debug, PartialEq, Eq)]
pub enum DrawBuffers {
    NoBuffer,
    Attachments(Vec<u32>),
}

/// A renderbuffer storage: internal format and size.
#[derive(Clone, Copy, Debug, PartialEq, Eq, Structural)]
pub struct RenderbufferStorage {
    pub internal_format: u32,
    pub width: i32,
    pub height: i32,
}

/// How a new framebuffer is set up: its size, the color buffers to draw to, the number of
/// textures to reserve, and the depth renderbuffer to create and attach, if one is needed.
#[derive(Clone, Debug, PartialEq, Eq)]
pub struct FramebufferPlan {
    pub width: u32,
    pub height: u32,
    pub draw_buffers: DrawBuffers,
    pub textures_needed: usize,
    pub depth_renderbuffer: Option<RenderbufferStorage>,
}

/// Plan a new `width`×`height` framebuffer with `color_slots` color attachments, with or without
/// a depth attachment: without color slots it draws to no buffer, else to its color attachments
/// in order; without a depth attachment it gets a 32-bit floating-point depth renderbuffer of its
/// size.
pub fn new_framebuffer_plan(color_slots: usize, has_depth: bool, width: u32, height: u32) -> (r: FramebufferPlan)
    requires
        color_slots < usize::MAX,
        color_slots <= u32::MAX - glenum::COLOR_ATTACHMENT0,
    ensures
        r.width == width && r.height == height,
        color_slots == 0 ==> r.draw_buffers == DrawBuffers::NoBuffer,
        color_slots > 0 ==> (r.draw_buffers matches DrawBuffers::Attachments(v) && v@ == Seq::new(
            color_slots as nat,
            |i: int| (glenum::COLOR_ATTACHMENT0 + i) as u32,
        )),
        r.textures_needed == color_slots + (if has_depth { 1int } else { 0int }),
        r.depth_renderbuffer == (if has_depth {
            None
        } else {
            Some(
                RenderbufferStorage {
                    internal_format: glenum::DEPTH_COMPONENT32F,
                    width: width as i32,
                    height: height as i32,
                },
            )
        }),
{
    let draw_buffers = if color_slots == 0 {
        DrawBuffers::NoBuffer
    } else {
        let mut v: Vec<u32> = Vec::new();
        let mut i: usize = 0;
        while i < color_slots
            invariant
                i <= color_slots,
                color_slots <= u32::MAX - glenum::COLOR_ATTACHMENT0,
                v@ == Seq::new(i as nat, |k: int| (glenum::COLOR_ATTACHMENT0 + k) as u32),
            decreases color_slots - i,
        {
            v.push(glenum::COLOR_ATTACHMENT0 + i as u32);
            i = i + 1;
            assert(v@ =~= Seq::new(i as nat, |k: int| (glenum::COLOR_ATTACHMENT0 + k) as u32));
        }
        DrawBuffers::Attachments(v)
    };
    let textures_needed = color_slots + if has_depth { 1 } else { 0 };
    let depth_renderbuffer = if has_depth {
        None
    } else {
        Some(
            RenderbufferStorage {
                internal_format: glenum::DEPTH_COMPONENT32F,
                width: width as i32,
                height: height as i32,
            },
        )
    };
    FramebufferPlan { width, height, draw_buffers, textures_needed, depth_renderbuffer }
}

/// The attachment point of color attachment `attachment_index`.
pub fn color_attachment(attachment_index: usize) -> (r: u32)
    requires
        attachment_index <= u32::MAX - glenum::COLOR_ATTACHMENT0,
    ensures
        r == glenum::COLOR_ATTACHMENT0 + attachment_index,
{
    glenum::COLOR_ATTACHMENT0 + attachment_index as u32
}

/// The commands that destroy a framebuffer: its depth renderbuffer, if it has one, is deleted
/// and unbound; then, unless it is the back buffer (handle 0), the framebuffer is deleted and
/// the vertex array binding is reset through the cache.
pub fn destroy_framebuffer(state: &mut GLState, handle: u32, renderbuffer: Option<u32>) -> (r: Vec<GlCommand>)
    ensures
        handle == 0 ==> final(state)@ == old(state)@,
        handle != 0 ==> final(state)@ == (GLStateView { bound_vertex_array: 0, ..old(state)@ }),
        r@ == (match renderbuffer {
            Some(rb) => seq![GlCommand::DeleteRenderbuffer(rb), GlCommand::BindRenderbuffer(0)],
            None => Seq::<GlCommand>::empty(),
        }) + (if handle == 0 {
            Seq::<GlCommand>::empty()
        } else if old(state)@.bound_vertex_array != 0 {
            seq![GlCommand::DeleteFramebuffer(handle), GlCommand::BindVertexArray(0)]
        } else {
            seq![GlCommand::DeleteFramebuffer(handle)]
        }),
{
    let mut cmds: Vec<GlCommand> = Vec::new();
    if let Some(rb) = renderbuffer {
        cmds.push(GlCommand::DeleteRenderbuffer(rb));
        cmds.push(GlCommand::BindRenderbuffer(0));
    }
    let ghost first = cmds@;
    if handle != 0 {
        cmds.push(GlCommand::DeleteFramebuffer(handle));
        let c = state.bind_vertex_array(0, Bind::Cached);
        if let Some(c) = c {
            cmds.push(c);
        }
    }
    proof {
        if handle == 0 {
            assert(cmds@ =~= first + Seq::<GlCommand>::empty());
        } else if old(state)@.bound_vertex_array != 0 {
            assert(cmds@ =~= first + seq![GlCommand::DeleteFramebuffer(handle), GlCommand::BindVertexArray(0)]);
        } else {
            assert(cmds@ =~= first + seq![GlCommand::DeleteFramebuffer(handle)]);
        }
    }
    cmds
}

} // verus!

//! Pipeline entry, resource binding and render state application on top of the graphics state.
use vstd::prelude::*;

use crate::glenum;
use crate::render_state::{
    Blending, BlendingEquations, BlendingFactors, BlendingState, Comparison, DepthTest, FaceCulling,
    FaceCullingState, RenderState,
};
use crate::render_state;
use crate::state::{
    acquired, after_acquire, can_acquire, needs_update, slot_differs, slot_store, toggle_command,
    GLState, GLStateView, GlCommand, ViewportRect,
};

verus! {

/// The commands of an optional command: none or one.
pub open spec fn opt_seq(c: Option<GlCommand>) -> Seq<GlCommand> {
    match c {
        Some(c) => seq![c],
        None => Seq::empty(),
    }
}

/// The command of a cached request: issued only when the cache does not already hold the value.
pub open spec fn cached_cmd<T>(cached: Option<T>, v: T, c: GlCommand) -> Seq<GlCommand> {
    if needs_update(cached, v) {
        seq![c]
    } else {
        Seq::empty()
    }
}

fn push_opt(v: &mut Vec<GlCommand>, c: Option<GlCommand>)
    ensures
        final(v)@ == old(v)@ + opt_seq(c),
{
    match c {
        Some(c) => {
            v.push(c);
            assert(v@ =~= old(v)@ + opt_seq(Some(c)));
        },
        None => {
            assert(v@ =~= old(v)@ + opt_seq(None));
        },
    }
}

/// The graphics state after the blending part of a render state was entered.
pub open spec fn after_blending(v: GLStateView, blending: Option<Blending>) -> GLStateView {
    match blending {
        Some(b) => GLStateView {
            blending_state: Some(BlendingState::On),
            blending_equations: Some(BlendingEquations { rgb: b.equation, alpha: b.equation }),
            blending_funcs: Some(
                BlendingFactors { src_rgb: b.src, dst_rgb: b.dst, src_alpha: b.src, dst_alpha: b.dst },
            ),
            ..v
        },
        None => GLStateView { blending_state: Some(BlendingState::Off), ..v },
    }
}

/// The commands that entering the blending part of a render state issues.
pub open spec fn blending_commands(v: GLStateView, blending: Option<Blending>) -> Seq<GlCommand> {
    match blending {
        Some(b) => cached_cmd(v.blending_state, BlendingState::On, GlCommand::Enable(glenum::BLEND))
            + cached_cmd(
            v.blending_equations,
            BlendingEquations { rgb: b.equation, alpha: b.equation },
            GlCommand::BlendEquation(render_state::equation_glenum(b.equation)),
        ) + cached_cmd(
            v.blending_funcs,
            BlendingFactors { src_rgb: b.src, dst_rgb: b.dst, src_alpha: b.src, dst_alpha: b.dst },
            GlCommand::BlendFunc(render_state::factor_glenum(b.src), render_state::factor_glenum(b.dst)),
        ),
        None => cached_cmd(v.blending_state, BlendingState::Off, GlCommand::Disable(glenum::BLEND)),
    }
}

/// The graphics state after the depth test part of a render state was entered.
pub open spec fn after_depth_test(v: GLStateView, depth_test: Option<Comparison>) -> GLStateView {
    match depth_test {
        Some(c) => GLStateView { depth_test: Some(DepthTest::On), depth_test_comparison: Some(c), ..v },
        None => GLStateView { depth_test: Some(DepthTest::Off), ..v },
    }
}

/// The commands that entering the depth test part of a render state issues.
pub open spec fn depth_test_commands(v: GLStateView, depth_test: Option<Comparison>) -> Seq<GlCommand> {
    match depth_test {
        Some(c) => cached_cmd(v.depth_test, DepthTest::On, GlCommand::Enable(glenum::DEPTH_TEST))
            + cached_cmd(
            v.depth_test_comparison,
            c,
            GlCommand::DepthFunc(render_state::comparison_glenum(c)),
        ),
        None => cached_cmd(v.depth_test, DepthTest::Off, GlCommand::Disable(glenum::DEPTH_TEST)),
    }
}

/// The graphics state after the face culling part of a render state was entered.
pub open spec fn after_face_culling(v: GLStateView, face_culling: Option<FaceCulling>) -> GLStateView {
    match face_culling {
        Some(fc) => GLStateView {
            face_culling_state: Some(FaceCullingState::On),
            face_culling_order: Some(fc.order),
            face_culling_mode: Some(fc.mode),
            ..v
        },
        None => GLStateView { face_culling_state: Some(FaceCullingState::Off), ..v },
    }
}

/// The commands that entering the face culling part of a render state issues.
pub open spec fn face_culling_commands(v: GLStateView, face_culling: Option<FaceCulling>) -> Seq<GlCommand> {
    match face_culling {
        Some(fc) => cached_cmd(
            v.face_culling_state,
            FaceCullingState::On,
            GlCommand::Enable(glenum::CULL_FACE),
        ) + cached_cmd(
            v.face_culling_order,
            fc.order,
            GlCommand::FrontFace(render_state::face_culling_order_glenum(fc.order)),
        ) + cached_cmd(
            v.face_culling_mode,
            fc.mode,
            GlCommand::CullFace(render_state::face_culling_mode_glenum(fc.mode)),
        ),
        None => cached_cmd(
            v.face_culling_state,
            FaceCullingState::Off,
            GlCommand::Disable(glenum::CULL_FACE),
        ),
    }
}

/// The graphics state after a render state was entered.
pub open spec fn after_render_state(v: GLStateView, rs: RenderState) -> GLStateView {
    after_face_culling(after_depth_test(after_blending(v, rs.blending), rs.depth_test), rs.face_culling)
}

/// The commands that entering a render state issues, from graphics state `v`.
pub open spec fn render_state_commands(v: GLStateView, rs: RenderState) -> Seq<GlCommand> {
    let v1 = after_blending(v, rs.blending);
    let v2 = after_depth_test(v1, rs.depth_test);
    blending_commands(v, rs.blending) + depth_test_commands(v1, rs.depth_test)
        + face_culling_commands(v2, rs.face_culling)
}

/// Which part of the framebuffer a pipeline renders to.
#[derive(Clone, Copy, Debug, PartialEq, Eq, Structural)]
pub enum Viewport {
    /// The whole framebuffer.
    Whole,
    /// A rectangle of the framebuffer.
    Specific { x: u32, y: u32, width: u32, height: u32 },
}

/// The integer part of a pipeline state: what to clear, where to render, sRGB conversion.
#[derive(Clone, Copy, Debug, PartialEq, Eq, Structural)]
pub struct PipelineState {
    pub clear_color_enabled: bool,
    pub clear_depth_enabled: bool,
    pub viewport: Viewport,
    pub srgb_enabled: bool,
}

/// The viewport rectangle that a pipeline sets on a framebuffer of the given size.
pub open spec fn viewport_rect(viewport: Viewport, width: u32, height: u32) -> ViewportRect {
    match viewport {
        Viewport::Whole => ViewportRect { x: 0, y: 0, width: width as i32, height: height as i32 },
        Viewport::Specific { x, y, width, height } => ViewportRect {
            x: x as i32,
            y: y as i32,
            width: width as i32,
            height: height as i32,
        },
    }
}

/// The mask of buffers to clear, if any buffer must be cleared.
pub open spec fn clear_mask_spec(color: bool, depth: bool) -> Option<u32> {
    if color || depth {
        Some(
            ((if color { glenum::COLOR_BUFFER_BIT } else { 0u32 }) | (if depth {
                glenum::DEPTH_BUFFER_BIT
            } else {
                0u32
            })) as u32,
        )
    } else {
        None
    }
}

/// Compute the mask of buffers to clear.
pub fn clear_mask(color: bool, depth: bool) -> (r: Option<u32>)
    ensures
        r == clear_mask_spec(color, depth),
{
    if color || depth {
        let color_bit = if color { glenum::COLOR_BUFFER_BIT } else { 0 };
        let depth_bit = if depth { glenum::DEPTH_BUFFER_BIT } else { 0 };
        Some(color_bit | depth_bit)
    } else {
        None
    }
}

/// Compute the viewport rectangle of a pipeline.
pub fn pipeline_viewport(viewport: Viewport, width: u32, height: u32) -> (r: ViewportRect)
    ensures
        r == viewport_rect(viewport, width, height),
{
    match viewport {
        Viewport::Whole => ViewportRect { x: 0, y: 0, width: width as i32, height: height as i32 },
        Viewport::Specific { x, y, width, height } => ViewportRect {
            x: x as i32,
            y: y as i32,
            width: width as i32,
            height: height as i32,
        },
    }
}

impl GLState {
    fn enter_blending(&mut self, blending: Option<Blending>, cmds: &mut Vec<GlCommand>)
        ensures
            final(self)@ == after_blending(old(self)@, blending),
            final(cmds)@ == old(cmds)@ + blending_commands(old(self)@, blending),
    {
        match blending {
            Some(b) => {
                let c = self.set_blending_state(BlendingState::On);
                push_opt(cmds, c);
                let c = self.set_blending_equation(b.equation);
                push_opt(cmds, c);
                let c = self.set_blending_func(b.src, b.dst);
                push_opt(cmds, c);
            },
            None => {
                let c = self.set_blending_state(BlendingState::Off);
                push_opt(cmds, c);
            },
        }
        assert(cmds@ =~= old(cmds)@ + blending_commands(old(self)@, blending));
    }

    fn enter_depth_test(&mut self, depth_test: Option<Comparison>, cmds: &mut Vec<GlCommand>)
        ensures
            final(self)@ == after_depth_test(old(self)@, depth_test),
            final(cmds)@ == old(cmds)@ + depth_test_commands(old(self)@, depth_test),
    {
        match depth_test {
            Some(cmp) => {
                let c = self.set_depth_test(DepthTest::On);
                push_opt(cmds, c);
                let c = self.set_depth_test_comparison(cmp);
                push_opt(cmds, c);
            },
            None => {
                let c = self.set_depth_test(DepthTest::Off);
                push_opt(cmds, c);
            },
        }
        assert(cmds@ =~= old(cmds)@ + depth_test_commands(old(self)@, depth_test));
    }

    fn enter_face_culling(&mut self, face_culling: Option<FaceCulling>, cmds: &mut Vec<GlCommand>)
        ensures
            final(self)@ == after_face_culling(old(self)@, face_culling),
            final(cmds)@ == old(cmds)@ + face_culling_commands(old(self)@, face_culling),
    {
        match face_culling {
            Some(fc) => {
                let c = self.set_face_culling_state(FaceCullingState::On);
                push_opt(cmds, c);
                let c = self.set_face_culling_order(fc.order);
                push_opt(cmds, c);
                let c = self.set_face_culling_mode(fc.mode);
                push_opt(cmds, c);
            },
            None => {
                let c = self.set_face_culling_state(FaceCullingState::Off);
                push_opt(cmds, c);
            },
        }
        assert(cmds@ =~= old(cmds)@ + face_culling_commands(old(self)@, face_culling));
    }

    /// Enter a render state: blending, depth test and face culling, each through the cache.
    pub fn enter_render_state(&mut self, rdr_st: RenderState) -> (cmds: Vec<GlCommand>)
        ensures
            final(self)@ == after_render_state(old(self)@, rdr_st),
            cmds@ == render_state_commands(old(self)@, rdr_st),
    {
        let mut cmds: Vec<GlCommand> = Vec::new();
        self.enter_blending(rdr_st.blending, &mut cmds);
        self.enter_depth_test(rdr_st.depth_test, &mut cmds);
        self.enter_face_culling(rdr_st.face_culling, &mut cmds);
        assert(cmds@ =~= render_state_commands(old(self)@, rdr_st));
        cmds
    }
}


/// The graphics state once a pipeline started on framebuffer `framebuffer` of the given size.
pub open spec fn after_pipeline_start(
    v: GLStateView,
    framebuffer: u32,
    width: u32,
    height: u32,
    pipeline_state: PipelineState,
) -> GLStateView {
    GLStateView {
        bound_draw_framebuffer: Some(framebuffer),
        viewport: Some(viewport_rect(pipeline_state.viewport, width, height)),
        srgb_framebuffer_enabled: Some(pipeline_state.srgb_enabled),
        ..v
    }
}

/// The commands that start a pipeline before the clear color is set: bind the framebuffer and
/// set the viewport, each through the cache.
pub open spec fn pipeline_bind_commands(
    v: GLStateView,
    framebuffer: u32,
    width: u32,
    height: u32,
    pipeline_state: PipelineState,
) -> Seq<GlCommand> {
    let rect = viewport_rect(pipeline_state.viewport, width, height);
    cached_cmd(
        v.bound_draw_framebuffer,
        framebuffer,
        GlCommand::BindFramebuffer(glenum::DRAW_FRAMEBUFFER, framebuffer),
    ) + cached_cmd(
        v.viewport,
        rect,
        GlCommand::Viewport { x: rect.x, y: rect.y, width: rect.width, height: rect.height },
    )
}

/// The commands that start a pipeline after the clear color is set: clear the requested buffers,
/// then set sRGB conversion through the cache.
pub open spec fn pipeline_clear_commands(v: GLStateView, pipeline_state: PipelineState) -> Seq<GlCommand> {
    let clear = match clear_mask_spec(pipeline_state.clear_color_enabled, pipeline_state.clear_depth_enabled) {
        Some(m) => seq![GlCommand::Clear(m)],
        None => Seq::<GlCommand>::empty(),
    };
    clear + cached_cmd(
        v.srgb_framebuffer_enabled,
        pipeline_state.srgb_enabled,
        toggle_command(pipeline_state.srgb_enabled, glenum::FRAMEBUFFER_SRGB),
    )
}

impl GLState {
    /// Start a pipeline on a framebuffer of the given size. The first commands bind the
    /// framebuffer and set the viewport; the clear color is set between the two lists; the
    /// second commands clear the requested buffers and set sRGB conversion.
    pub fn start_pipeline(
        &mut self,
        framebuffer: u32,
        width: u32,
        height: u32,
        pipeline_state: PipelineState,
    ) -> (cmds: (Vec<GlCommand>, Vec<GlCommand>))
        ensures
            final(self)@ == after_pipeline_start(old(self)@, framebuffer, width, height, pipeline_state),
            cmds.0@ == pipeline_bind_commands(old(self)@, framebuffer, width, height, pipeline_state),
            cmds.1@ == pipeline_clear_commands(old(self)@, pipeline_state),
    {
        let mut before: Vec<GlCommand> = Vec::new();
        let c = self.bind_draw_framebuffer(framebuffer);
        push_opt(&mut before, c);
        let rect = pipeline_viewport(pipeline_state.viewport, width, height);
        let c = self.set_viewport(rect);
        push_opt(&mut before, c);
        let mut after: Vec<GlCommand> = Vec::new();
        match clear_mask(pipeline_state.clear_color_enabled, pipeline_state.clear_depth_enabled) {
            Some(m) => after.push(GlCommand::Clear(m)),
            None => {},
        }
        let ghost n = after@;
        let c = self.enable_srgb_framebuffer(pipeline_state.srgb_enabled);
        push_opt(&mut after, c);
        assert(before@ =~= cached_cmd(
            old(self)@.bound_draw_framebuffer,
            framebuffer,
            GlCommand::BindFramebuffer(glenum::DRAW_FRAMEBUFFER, framebuffer),
        ) + cached_cmd(
            old(self)@.viewport,
            rect,
            GlCommand::Viewport { x: rect.x, y: rect.y, width: rect.width, height: rect.height },
        ));
        (before, after)
    }

    /// Bind a uniform buffer for a pipeline: a binding point is acquired and the buffer is
    /// bound there. The binding point is handed back with the command to issue, if any.
    pub fn bind_pipeline_buffer(&mut self, handle: u32) -> (r: (u32, Option<GlCommand>))
        requires
            can_acquire(old(self)@.buffer_bindings),
            acquired(old(self)@.buffer_bindings) + 1 <= usize::MAX,
        ensures
            ({
                let b = acquired(old(self)@.buffer_bindings);
                &&& r.0 == b
                &&& final(self)@ == (GLStateView {
                    buffer_bindings: after_acquire(old(self)@.buffer_bindings),
                    bound_uniform_buffers: slot_store(old(self)@.bound_uniform_buffers, b as int, handle, 0u32),
                    ..old(self)@
                })
                &&& r.1 == (if slot_differs(old(self)@.bound_uniform_buffers, b as int, handle) {
                    Some(GlCommand::BindBufferBase(glenum::UNIFORM_BUFFER, b, handle))
                } else {
                    None
                })
            }),
    {
        let binding = self.acquire_buffer_binding();
        let c = self.bind_buffer_base(handle, binding);
        (binding, c)
    }

    /// Bind a texture for a pipeline: a texture unit is acquired, made active, and the texture is
    /// bound on it. The unit is handed back with the commands to issue.
    pub fn bind_pipeline_texture(&mut self, target: u32, handle: u32) -> (r: (u32, Vec<GlCommand>))
        requires
            can_acquire(old(self)@.texture_units),
            acquired(old(self)@.texture_units) <= u32::MAX - glenum::TEXTURE0,
        ensures
            ({
                let u = acquired(old(self)@.texture_units);
                &&& r.0 == u
                &&& final(self)@ == (GLStateView {
                    texture_units: after_acquire(old(self)@.texture_units),
                    current_texture_unit: Some(u),
                    bound_textures: slot_store(
                        old(self)@.bound_textures,
                        u as int,
                        (target, handle),
                        (glenum::TEXTURE_2D, 0u32),
                    ),
                    ..old(self)@
                })
                &&& r.1@ == cached_cmd(
                    old(self)@.current_texture_unit,
                    u,
                    GlCommand::ActiveTexture((glenum::TEXTURE0 + u) as u32),
                ) + (if slot_differs(old(self)@.bound_textures, u as int, (target, handle)) {
                    seq![GlCommand::BindTexture(target, handle)]
                } else {
                    Seq::empty()
                })
            }),
    {
        let unit = self.acquire_texture_unit();
        let mut cmds: Vec<GlCommand> = Vec::new();
        let c = self.set_texture_unit(unit);
        push_opt(&mut cmds, c);
        let c = self.bind_texture(target, handle);
        push_opt(&mut cmds, c);
        proof {
            let u = acquired(old(self)@.texture_units);
            let tail = if slot_differs(old(self)@.bound_textures, u as int, (target, handle)) {
                seq![GlCommand::BindTexture(target, handle)]
            } else {
                Seq::empty()
            };
            assert(cmds@ =~= cached_cmd(
                old(self)@.current_texture_unit,
                u,
                GlCommand::ActiveTexture((glenum::TEXTURE0 + u) as u32),
            ) + tail);
        }
        (unit, cmds)
    }
}

/// Entering the same render state twice in a row issues no command the second time.
pub proof fn law_render_state_reentry_is_cached(v: GLStateView, rs: RenderState)
    ensures
        render_state_commands(after_render_state(v, rs), rs) == Seq::<GlCommand>::empty(),
        after_render_state(after_render_state(v, rs), rs) == after_render_state(v, rs),
{
    let w = after_render_state(v, rs);
    let w1 = after_blending(w, rs.blending);
    let w2 = after_depth_test(w1, rs.depth_test);
    assert(blending_commands(w, rs.blending) =~= Seq::<GlCommand>::empty());
    assert(depth_test_commands(w1, rs.depth_test) =~= Seq::<GlCommand>::empty());
    assert(face_culling_commands(w2, rs.face_culling) =~= Seq::<GlCommand>::empty());
    assert(render_state_commands(w, rs) =~= Seq::<GlCommand>::empty());
}


/// Clearing asks for the color buffer bit (0x4000) when the color is cleared and the depth
/// buffer bit (0x0100) when the depth is, together when both are, and clears nothing when
/// neither is.
pub proof fn law_clear_mask(color: bool, depth: bool)
    ensures
        color && depth ==> clear_mask_spec(color, depth) == Some(0x4100u32),
        color && !depth ==> clear_mask_spec(color, depth) == Some(0x4000u32),
        !color && depth ==> clear_mask_spec(color, depth) == Some(0x0100u32),
        !color && !depth ==> clear_mask_spec(color, depth) is None,
{
    assert(0x4000u32 | 0x0100u32 == 0x4100u32) by (bit_vector);
    assert(0x4000u32 | 0u32 == 0x4000u32) by (bit_vector);
    assert(0u32 | 0x0100u32 == 0x0100u32) by (bit_vector);
}

} // verus!

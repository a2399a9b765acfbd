//! A model of what an OpenGL context holds, and of how the commands of the graphics state change
//! it. It states what the state cache is for: performing the commands that the cache issues
//! leaves the context holding what was asked, although the commands for values the cache
//! already knows are left out.
use vstd::prelude::*;

use crate::glenum;
use crate::pipeline::{
    after_blending, after_depth_test, after_face_culling, after_pipeline_start, after_render_state,
    blending_commands, cached_cmd, clear_mask_spec, depth_test_commands, face_culling_commands,
    pipeline_bind_commands, pipeline_clear_commands, render_state_commands, viewport_rect, PipelineState,
};
use crate::tess::{after_render, after_render_setup, render_state_cmds, IndexedDrawState, TessRaw};
use crate::render_state::{
    comparison_glenum, equation_glenum, face_culling_mode_glenum, face_culling_order_glenum, factor_glenum,
    Blending, BlendingState, Comparison, DepthTest, FaceCulling, FaceCullingState, RenderState, VertexRestart,
};
use crate::state::{GLStateView, GlCommand, ViewportRect};

verus! {

/// The part of an OpenGL context that the graphics state caches.
pub struct ContextModel {
    pub viewport: ViewportRect,
    pub blend: bool,
    /// RGB and alpha blending equations.
    pub blend_equations: (u32, u32),
    /// RGB source, RGB destination, alpha source and alpha destination factors.
    pub blend_funcs: (u32, u32, u32, u32),
    pub depth_test: bool,
    pub depth_func: u32,
    pub cull_face: bool,
    pub front_face: u32,
    pub cull_face_mode: u32,
    pub primitive_restart: bool,
    pub patch_vertices: i32,
    /// The active texture unit, as its `TEXTURE0 + unit` enumerant.
    pub active_texture: u32,
    pub draw_framebuffer: u32,
    pub vertex_array: u32,
    pub program: u32,
    pub framebuffer_srgb: bool,
}

/// A capability turned on or off.
pub open spec fn set_capability(ctx: ContextModel, cap: u32, on: bool) -> ContextModel {
    if cap == glenum::BLEND {
        ContextModel { blend: on, ..ctx }
    } else if cap == glenum::DEPTH_TEST {
        ContextModel { depth_test: on, ..ctx }
    } else if cap == glenum::CULL_FACE {
        ContextModel { cull_face: on, ..ctx }
    } else if cap == glenum::PRIMITIVE_RESTART {
        ContextModel { primitive_restart: on, ..ctx }
    } else if cap == glenum::FRAMEBUFFER_SRGB {
        ContextModel { framebuffer_srgb: on, ..ctx }
    } else {
        ctx
    }
}

/// What a command does to the context.
pub open spec fn apply_cmd(ctx: ContextModel, cmd: GlCommand) -> ContextModel {
    match cmd {
        GlCommand::Viewport { x, y, width, height } => ContextModel {
            viewport: ViewportRect { x, y, width, height },
            ..ctx
        },
        GlCommand::Enable(cap) => set_capability(ctx, cap, true),
        GlCommand::Disable(cap) => set_capability(ctx, cap, false),
        GlCommand::BlendEquation(e) => ContextModel { blend_equations: (e, e), ..ctx },
        GlCommand::BlendEquationSeparate(rgb, alpha) => ContextModel { blend_equations: (rgb, alpha), ..ctx },
        GlCommand::BlendFunc(src, dst) => ContextModel { blend_funcs: (src, dst, src, dst), ..ctx },
        GlCommand::BlendFuncSeparate(sr, dr, sa, da) => ContextModel { blend_funcs: (sr, dr, sa, da), ..ctx },
        GlCommand::DepthFunc(f) => ContextModel { depth_func: f, ..ctx },
        GlCommand::FrontFace(o) => ContextModel { front_face: o, ..ctx },
        GlCommand::CullFace(m) => ContextModel { cull_face_mode: m, ..ctx },
        GlCommand::PatchParameter(pname, n) => if pname == glenum::PATCH_VERTICES {
            ContextModel { patch_vertices: n, ..ctx }
        } else {
            ctx
        },
        GlCommand::ActiveTexture(unit) => ContextModel { active_texture: unit, ..ctx },
        GlCommand::BindFramebuffer(target, f) => if target == glenum::DRAW_FRAMEBUFFER {
            ContextModel { draw_framebuffer: f, ..ctx }
        } else {
            ctx
        },
        GlCommand::BindVertexArray(a) => ContextModel { vertex_array: a, ..ctx },
        GlCommand::UseProgram(p) => ContextModel { program: p, ..ctx },
        _ => ctx,
    }
}

/// What commands performed in order do to the context.
pub open spec fn apply_all(ctx: ContextModel, cmds: Seq<GlCommand>) -> ContextModel
    decreases cmds.len(),
{
    if cmds.len() == 0 {
        ctx
    } else {
        apply_cmd(apply_all(ctx, cmds.drop_last()), cmds.last())
    }
}

/// The graphics state agrees with the context: every value it knows is what the context holds.
pub open spec fn agrees(v: GLStateView, ctx: ContextModel) -> bool {
    &&& v.viewport matches Some(r) ==> ctx.viewport == r
    &&& v.blending_state matches Some(s) ==> ctx.blend == (s == BlendingState::On)
    &&& v.blending_equations matches Some(e) ==> ctx.blend_equations == (
        equation_glenum(e.rgb),
        equation_glenum(e.alpha),
    )
    &&& v.blending_funcs matches Some(f) ==> ctx.blend_funcs == (
        factor_glenum(f.src_rgb),
        factor_glenum(f.dst_rgb),
        factor_glenum(f.src_alpha),
        factor_glenum(f.dst_alpha),
    )
    &&& v.depth_test matches Some(d) ==> ctx.depth_test == (d == DepthTest::On)
    &&& v.depth_test_comparison matches Some(c) ==> ctx.depth_func == comparison_glenum(c)
    &&& v.face_culling_state matches Some(s) ==> ctx.cull_face == (s == FaceCullingState::On)
    &&& v.face_culling_order matches Some(o) ==> ctx.front_face == face_culling_order_glenum(o)
    &&& v.face_culling_mode matches Some(m) ==> ctx.cull_face_mode == face_culling_mode_glenum(m)
    &&& v.vertex_restart matches Some(r) ==> ctx.primitive_restart == (r == VertexRestart::On)
    &&& v.patch_vertex_nb matches Some(n) ==> ctx.patch_vertices == n as i32
    &&& v.current_texture_unit matches Some(u) ==> ctx.active_texture == (glenum::TEXTURE0 + u) as u32
    &&& v.bound_draw_framebuffer matches Some(f) ==> ctx.draw_framebuffer == f
    &&& ctx.vertex_array == v.bound_vertex_array
    &&& ctx.program == v.current_program
    &&& v.srgb_framebuffer_enabled matches Some(b) ==> ctx.framebuffer_srgb == b
}

/// The context holds a render state: blending, depth test and face culling as it asks.
pub open spec fn holds_render_state(ctx: ContextModel, rs: RenderState) -> bool {
    &&& match rs.blending {
        Some(b) => ctx.blend && ctx.blend_equations == (equation_glenum(b.equation), equation_glenum(b.equation))
            && ctx.blend_funcs == (factor_glenum(b.src), factor_glenum(b.dst), factor_glenum(b.src), factor_glenum(
            b.dst,
        )),
        None => !ctx.blend,
    }
    &&& match rs.depth_test {
        Some(c) => ctx.depth_test && ctx.depth_func == comparison_glenum(c),
        None => !ctx.depth_test,
    }
    &&& match rs.face_culling {
        Some(fc) => ctx.cull_face && ctx.front_face == face_culling_order_glenum(fc.order) && ctx.cull_face_mode
            == face_culling_mode_glenum(fc.mode),
        None => !ctx.cull_face,
    }
}

proof fn lemma_apply_all_concat(ctx: ContextModel, a: Seq<GlCommand>, b: Seq<GlCommand>)
    ensures
        apply_all(ctx, a + b) == apply_all(apply_all(ctx, a), b),
    decreases b.len(),
{
    if b.len() == 0 {
        assert(a + b =~= a);
    } else {
        lemma_apply_all_concat(ctx, a, b.drop_last());
        assert((a + b).drop_last() =~= a + b.drop_last());
        assert((a + b).last() == b.last());
    }
}

proof fn lemma_apply_cached<T>(ctx: ContextModel, cached: Option<T>, v: T, c: GlCommand)
    ensures
        apply_all(ctx, cached_cmd(cached, v, c)) == if cached != Some(v) {
            apply_cmd(ctx, c)
        } else {
            ctx
        },
{
    let s = cached_cmd(cached, v, c);
    if cached != Some(v) {
        assert(s.drop_last() =~= Seq::<GlCommand>::empty());
        assert(apply_all(ctx, s.drop_last()) == ctx);
        assert(s.last() == c);
    } else {
        assert(s.len() == 0);
    }
}

proof fn lemma_blending(v: GLStateView, ctx: ContextModel, blending: Option<Blending>)
    requires
        agrees(v, ctx),
    ensures
        agrees(after_blending(v, blending), apply_all(ctx, blending_commands(v, blending))),
        match blending {
            Some(b) => {
                let c = apply_all(ctx, blending_commands(v, blending));
                c.blend && c.blend_equations == (equation_glenum(b.equation), equation_glenum(b.equation))
                    && c.blend_funcs == (factor_glenum(b.src), factor_glenum(b.dst), factor_glenum(b.src), factor_glenum(
                    b.dst,
                ))
            },
            None => !apply_all(ctx, blending_commands(v, blending)).blend,
        },
{
    match blending {
        Some(b) => {
            let x = cached_cmd(v.blending_state, BlendingState::On, GlCommand::Enable(glenum::BLEND));
            let eqs = crate::render_state::BlendingEquations { rgb: b.equation, alpha: b.equation };
            let y = cached_cmd(
                v.blending_equations,
                eqs,
                GlCommand::BlendEquation(equation_glenum(b.equation)),
            );
            let fs = crate::render_state::BlendingFactors {
                src_rgb: b.src,
                dst_rgb: b.dst,
                src_alpha: b.src,
                dst_alpha: b.dst,
            };
            let z = cached_cmd(
                v.blending_funcs,
                fs,
                GlCommand::BlendFunc(factor_glenum(b.src), factor_glenum(b.dst)),
            );
            assert(blending_commands(v, blending) == x + y + z);
            lemma_apply_all_concat(ctx, x + y, z);
            lemma_apply_all_concat(ctx, x, y);
            lemma_apply_cached(ctx, v.blending_state, BlendingState::On, GlCommand::Enable(glenum::BLEND));
            let c1 = apply_all(ctx, x);
            lemma_apply_cached(c1, v.blending_equations, eqs, GlCommand::BlendEquation(equation_glenum(b.equation)));
            let c2 = apply_all(c1, y);
            lemma_apply_cached(c2, v.blending_funcs, fs, GlCommand::BlendFunc(factor_glenum(b.src), factor_glenum(b.dst)));
        },
        None => {
            lemma_apply_cached(ctx, v.blending_state, BlendingState::Off, GlCommand::Disable(glenum::BLEND));
        },
    }
}

proof fn lemma_depth_test(v: GLStateView, ctx: ContextModel, depth_test: Option<Comparison>)
    requires
        agrees(v, ctx),
    ensures
        agrees(after_depth_test(v, depth_test), apply_all(ctx, depth_test_commands(v, depth_test))),
        match depth_test {
            Some(c) => apply_all(ctx, depth_test_commands(v, depth_test)).depth_test && apply_all(
                ctx,
                depth_test_commands(v, depth_test),
            ).depth_func == comparison_glenum(c),
            None => !apply_all(ctx, depth_test_commands(v, depth_test)).depth_test,
        },
        apply_all(ctx, depth_test_commands(v, depth_test)).blend == ctx.blend,
        apply_all(ctx, depth_test_commands(v, depth_test)).blend_equations == ctx.blend_equations,
        apply_all(ctx, depth_test_commands(v, depth_test)).blend_funcs == ctx.blend_funcs,
{
    match depth_test {
        Some(c) => {
            let x = cached_cmd(v.depth_test, DepthTest::On, GlCommand::Enable(glenum::DEPTH_TEST));
            let y = cached_cmd(v.depth_test_comparison, c, GlCommand::DepthFunc(comparison_glenum(c)));
            assert(depth_test_commands(v, depth_test) == x + y);
            lemma_apply_all_concat(ctx, x, y);
            lemma_apply_cached(ctx, v.depth_test, DepthTest::On, GlCommand::Enable(glenum::DEPTH_TEST));
            lemma_apply_cached(apply_all(ctx, x), v.depth_test_comparison, c, GlCommand::DepthFunc(comparison_glenum(c)));
        },
        None => {
            lemma_apply_cached(ctx, v.depth_test, DepthTest::Off, GlCommand::Disable(glenum::DEPTH_TEST));
        },
    }
}

proof fn lemma_face_culling(v: GLStateView, ctx: ContextModel, face_culling: Option<FaceCulling>)
    requires
        agrees(v, ctx),
    ensures
        agrees(after_face_culling(v, face_culling), apply_all(ctx, face_culling_commands(v, face_culling))),
        match face_culling {
            Some(fc) => {
                let c = apply_all(ctx, face_culling_commands(v, face_culling));
                c.cull_face && c.front_face == face_culling_order_glenum(fc.order) && c.cull_face_mode
                    == face_culling_mode_glenum(fc.mode)
            },
            None => !apply_all(ctx, face_culling_commands(v, face_culling)).cull_face,
        },
        apply_all(ctx, face_culling_commands(v, face_culling)).blend == ctx.blend,
        apply_all(ctx, face_culling_commands(v, face_culling)).blend_equations == ctx.blend_equations,
        apply_all(ctx, face_culling_commands(v, face_culling)).blend_funcs == ctx.blend_funcs,
        apply_all(ctx, face_culling_commands(v, face_culling)).depth_test == ctx.depth_test,
        apply_all(ctx, face_culling_commands(v, face_culling)).depth_func == ctx.depth_func,
{
    match face_culling {
        Some(fc) => {
            let x = cached_cmd(v.face_culling_state, FaceCullingState::On, GlCommand::Enable(glenum::CULL_FACE));
            let y = cached_cmd(
                v.face_culling_order,
                fc.order,
                GlCommand::FrontFace(face_culling_order_glenum(fc.order)),
            );
            let z = cached_cmd(
                v.face_culling_mode,
                fc.mode,
                GlCommand::CullFace(face_culling_mode_glenum(fc.mode)),
            );
            assert(face_culling_commands(v, face_culling) == x + y + z);
            lemma_apply_all_concat(ctx, x + y, z);
            lemma_apply_all_concat(ctx, x, y);
            lemma_apply_cached(ctx, v.face_culling_state, FaceCullingState::On, GlCommand::Enable(glenum::CULL_FACE));
            let c1 = apply_all(ctx, x);
            lemma_apply_cached(
                c1,
                v.face_culling_order,
                fc.order,
                GlCommand::FrontFace(face_culling_order_glenum(fc.order)),
            );
            let c2 = apply_all(c1, y);
            lemma_apply_cached(
                c2,
                v.face_culling_mode,
                fc.mode,
                GlCommand::CullFace(face_culling_mode_glenum(fc.mode)),
            );
        },
        None => {
            lemma_apply_cached(ctx, v.face_culling_state, FaceCullingState::Off, GlCommand::Disable(glenum::CULL_FACE));
        },
    }
}

/// When the graphics state agrees with the context, performing the commands that entering a
/// render state issues leaves the context holding that render state, and the new graphics state
/// still agrees with the context: the commands the cache leaves out were not needed.
pub proof fn law_entered_render_state_is_held(v: GLStateView, ctx: ContextModel, rs: RenderState)
    requires
        agrees(v, ctx),
    ensures
        holds_render_state(apply_all(ctx, render_state_commands(v, rs)), rs),
        agrees(after_render_state(v, rs), apply_all(ctx, render_state_commands(v, rs))),
{
    let v1 = after_blending(v, rs.blending);
    let v2 = after_depth_test(v1, rs.depth_test);
    let a = blending_commands(v, rs.blending);
    let b = depth_test_commands(v1, rs.depth_test);
    let c = face_culling_commands(v2, rs.face_culling);
    lemma_apply_all_concat(ctx, a + b, c);
    lemma_apply_all_concat(ctx, a, b);
    lemma_blending(v, ctx, rs.blending);
    let c1 = apply_all(ctx, a);
    lemma_depth_test(v1, c1, rs.depth_test);
    let c2 = apply_all(c1, b);
    lemma_face_culling(v2, c2, rs.face_culling);
}

/// When the graphics state agrees with the context, performing the commands that start a
/// pipeline leaves the context drawing to the pipeline's framebuffer, with its viewport and its
/// sRGB conversion, and the new graphics state still agrees with the context.
pub proof fn law_started_pipeline_is_held(
    v: GLStateView,
    ctx: ContextModel,
    framebuffer: u32,
    width: u32,
    height: u32,
    pipeline_state: PipelineState,
)
    requires
        agrees(v, ctx),
    ensures
        ({
            let c = apply_all(
                ctx,
                pipeline_bind_commands(v, framebuffer, width, height, pipeline_state) + pipeline_clear_commands(
                    v,
                    pipeline_state,
                ),
            );
            &&& c.draw_framebuffer == framebuffer
            &&& c.viewport == viewport_rect(pipeline_state.viewport, width, height)
            &&& c.framebuffer_srgb == pipeline_state.srgb_enabled
            &&& agrees(after_pipeline_start(v, framebuffer, width, height, pipeline_state), c)
        }),
{
    let rect = viewport_rect(pipeline_state.viewport, width, height);
    let x = cached_cmd(
        v.bound_draw_framebuffer,
        framebuffer,
        GlCommand::BindFramebuffer(glenum::DRAW_FRAMEBUFFER, framebuffer),
    );
    let y = cached_cmd(
        v.viewport,
        rect,
        GlCommand::Viewport { x: rect.x, y: rect.y, width: rect.width, height: rect.height },
    );
    let clear = match clear_mask_spec(pipeline_state.clear_color_enabled, pipeline_state.clear_depth_enabled) {
        Some(m) => seq![GlCommand::Clear(m)],
        None => Seq::<GlCommand>::empty(),
    };
    let z = cached_cmd(
        v.srgb_framebuffer_enabled,
        pipeline_state.srgb_enabled,
        crate::state::toggle_command(pipeline_state.srgb_enabled, glenum::FRAMEBUFFER_SRGB),
    );
    assert(pipeline_bind_commands(v, framebuffer, width, height, pipeline_state) == x + y);
    assert(pipeline_clear_commands(v, pipeline_state) == clear + z);
    assert((x + y) + (clear + z) =~= ((x + y) + clear) + z);
    lemma_apply_all_concat(ctx, (x + y) + clear, z);
    lemma_apply_all_concat(ctx, x + y, clear);
    lemma_apply_all_concat(ctx, x, y);
    lemma_apply_cached(ctx, v.bound_draw_framebuffer, framebuffer, GlCommand::BindFramebuffer(glenum::DRAW_FRAMEBUFFER, framebuffer));
    let c1 = apply_all(ctx, x);
    lemma_apply_cached(c1, v.viewport, rect, GlCommand::Viewport { x: rect.x, y: rect.y, width: rect.width, height: rect.height });
    let c2 = apply_all(c1, y);
    match clear_mask_spec(pipeline_state.clear_color_enabled, pipeline_state.clear_depth_enabled) {
        Some(m) => {
            assert(clear.drop_last() =~= Seq::<GlCommand>::empty());
            assert(apply_all(c2, clear.drop_last()) == c2);
        },
        None => {},
    }
    let c3 = apply_all(c2, clear);
    assert(c3 == c2);
    lemma_apply_cached(
        c3,
        v.srgb_framebuffer_enabled,
        pipeline_state.srgb_enabled,
        crate::state::toggle_command(pipeline_state.srgb_enabled, glenum::FRAMEBUFFER_SRGB),
    );
}

/// When the graphics state agrees with the context, performing the commands that rendering a
/// tessellation issues leaves its vertex array bound, the patch size set for patches, primitive
/// restart on exactly for indexed tessellations with a restart index, and the new graphics state
/// still agrees with the context.
pub proof fn law_rendered_tess_setup_is_held(v: GLStateView, ctx: ContextModel, raw: TessRaw)
    requires
        agrees(v, ctx),
    ensures
        ({
            let c = apply_all(ctx, render_state_cmds(v, raw));
            &&& c.vertex_array == raw.vao
            &&& raw.mode == glenum::PATCHES ==> c.patch_vertices == raw.patch_vert_nb as i32
            &&& raw.index_state matches Some(st) ==> c.primitive_restart == st.restart_index is Some
            &&& agrees(after_render(v, raw), c)
        }),
{
    let v1 = GLStateView { bound_vertex_array: raw.vao, ..v };
    let a = if v.bound_vertex_array != raw.vao {
        seq![GlCommand::BindVertexArray(raw.vao)]
    } else {
        Seq::empty()
    };
    let p = if raw.mode == glenum::PATCHES {
        cached_cmd(
            v1.patch_vertex_nb,
            raw.patch_vert_nb,
            GlCommand::PatchParameter(glenum::PATCH_VERTICES, raw.patch_vert_nb as i32),
        )
    } else {
        Seq::empty()
    };
    let v2 = after_render_setup(v, raw);
    let r = match raw.index_state {
        Some(IndexedDrawState { restart_index: Some(_), .. }) => cached_cmd(
            v2.vertex_restart,
            VertexRestart::On,
            crate::state::toggle_command(true, glenum::PRIMITIVE_RESTART),
        ),
        Some(IndexedDrawState { restart_index: None, .. }) => cached_cmd(
            v2.vertex_restart,
            VertexRestart::Off,
            crate::state::toggle_command(false, glenum::PRIMITIVE_RESTART),
        ),
        None => Seq::empty(),
    };
    assert(render_state_cmds(v, raw) == (a + p) + r);
    lemma_apply_all_concat(ctx, a + p, r);
    lemma_apply_all_concat(ctx, a, p);
    if v.bound_vertex_array != raw.vao {
        assert(a.drop_last() =~= Seq::<GlCommand>::empty());
        assert(apply_all(ctx, a.drop_last()) == ctx);
    }
    let c1 = apply_all(ctx, a);
    assert(agrees(v1, c1));
    if raw.mode == glenum::PATCHES {
        lemma_apply_cached(
            c1,
            v1.patch_vertex_nb,
            raw.patch_vert_nb,
            GlCommand::PatchParameter(glenum::PATCH_VERTICES, raw.patch_vert_nb as i32),
        );
    }
    let c2 = apply_all(c1, p);
    assert(agrees(v2, c2));
    match raw.index_state {
        Some(IndexedDrawState { restart_index: Some(_), .. }) => {
            lemma_apply_cached(c2, v2.vertex_restart, VertexRestart::On, crate::state::toggle_command(true, glenum::PRIMITIVE_RESTART));
        },
        Some(IndexedDrawState { restart_index: None, .. }) => {
            lemma_apply_cached(c2, v2.vertex_restart, VertexRestart::Off, crate::state::toggle_command(false, glenum::PRIMITIVE_RESTART));
        },
        None => {},
    }
}

} // verus!

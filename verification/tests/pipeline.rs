use luminance_gl::framebuffer::destroy_framebuffer;
use luminance_gl::glenum;
use luminance_gl::pipeline::{clear_mask, pipeline_viewport, PipelineState, Viewport};
use luminance_gl::render_state::{
    Blending, Comparison, Equation, Factor, FaceCulling, FaceCullingMode, FaceCullingOrder, RenderState,
};
use luminance_gl::state::{Bind, ContextSnapshot, GLState, GlCommand, ViewportRect};

fn state() -> GLState {
    let snap = ContextSnapshot {
        viewport: ViewportRect { x: 0, y: 0, width: 800, height: 600 },
        blend_enabled: glenum::FALSE,
        blend_equation_rgb: glenum::FUNC_ADD,
        blend_equation_alpha: glenum::FUNC_ADD,
        blend_src_rgb: glenum::ONE,
        blend_dst_rgb: glenum::ZERO,
        blend_src_alpha: glenum::ONE,
        blend_dst_alpha: glenum::ZERO,
        depth_test_enabled: glenum::FALSE,
        cull_face_enabled: glenum::FALSE,
        front_face: glenum::CCW,
        cull_face_mode: glenum::BACK,
        primitive_restart_enabled: glenum::FALSE,
        active_texture: glenum::TEXTURE0,
        draw_framebuffer_binding: 0,
        vertex_array_binding: 0,
        current_program: 0,
        framebuffer_srgb_enabled: glenum::FALSE,
    };
    GLState::from_context(snap).unwrap()
}

#[test]
fn clear_masks() {
    assert_eq!(clear_mask(false, false), None);
    assert_eq!(clear_mask(true, false), Some(glenum::COLOR_BUFFER_BIT));
    assert_eq!(clear_mask(false, true), Some(glenum::DEPTH_BUFFER_BIT));
    assert_eq!(clear_mask(true, true), Some(0x4100));
}

#[test]
fn pipeline_viewports() {
    assert_eq!(pipeline_viewport(Viewport::Whole, 960, 540), ViewportRect { x: 0, y: 0, width: 960, height: 540 });
    assert_eq!(
        pipeline_viewport(Viewport::Specific { x: 10, y: 20, width: 30, height: 40 }, 960, 540),
        ViewportRect { x: 10, y: 20, width: 30, height: 40 }
    );
}

#[test]
fn entering_a_render_state_twice_issues_nothing_the_second_time() {
    let mut st = state();
    let rs = RenderState {
        blending: Some(Blending { equation: Equation::Additive, src: Factor::One, dst: Factor::One }),
        depth_test: Some(Comparison::LessOrEqual),
        face_culling: Some(FaceCulling { order: FaceCullingOrder::CW, mode: FaceCullingMode::Front }),
    };
    let cmds = st.enter_render_state(rs);
    assert_eq!(
        cmds,
        vec![
            GlCommand::Enable(glenum::BLEND),
            GlCommand::BlendFunc(glenum::ONE, glenum::ONE),
            GlCommand::Enable(glenum::DEPTH_TEST),
            GlCommand::DepthFunc(glenum::LEQUAL),
            GlCommand::Enable(glenum::CULL_FACE),
            GlCommand::FrontFace(glenum::CW),
            GlCommand::CullFace(glenum::FRONT),
        ]
    );
    assert_eq!(st.enter_render_state(rs), vec![]);

    let plain = RenderState { blending: None, depth_test: None, face_culling: None };
    assert_eq!(
        st.enter_render_state(plain),
        vec![
            GlCommand::Disable(glenum::BLEND),
            GlCommand::Disable(glenum::DEPTH_TEST),
            GlCommand::Disable(glenum::CULL_FACE),
        ]
    );
    assert_eq!(st.enter_render_state(plain), vec![]);
}

#[test]
fn starting_a_pipeline() {
    let mut st = state();
    let ps = PipelineState {
        clear_color_enabled: true,
        clear_depth_enabled: true,
        viewport: Viewport::Whole,
        srgb_enabled: true,
    };
    let (before, after) = st.start_pipeline(3, 960, 540, ps);
    assert_eq!(
        before,
        vec![
            GlCommand::BindFramebuffer(glenum::DRAW_FRAMEBUFFER, 3),
            GlCommand::Viewport { x: 0, y: 0, width: 960, height: 540 },
        ]
    );
    assert_eq!(after, vec![GlCommand::Clear(0x4100), GlCommand::Enable(glenum::FRAMEBUFFER_SRGB)]);

    let (before, after) = st.start_pipeline(3, 960, 540, ps);
    assert_eq!(before, vec![]);
    assert_eq!(after, vec![GlCommand::Clear(0x4100)]);

    let no_clear = PipelineState { clear_color_enabled: false, clear_depth_enabled: false, srgb_enabled: false, ..ps };
    let (_, after) = st.start_pipeline(3, 960, 540, no_clear);
    assert_eq!(after, vec![GlCommand::Disable(glenum::FRAMEBUFFER_SRGB)]);
}

#[test]
fn pipelines_bind_buffers_and_textures_on_fresh_bindings() {
    let mut st = state();
    let (b, cmd) = st.bind_pipeline_buffer(21);
    assert_eq!(b, 0);
    assert_eq!(cmd, Some(GlCommand::BindBufferBase(glenum::UNIFORM_BUFFER, 0, 21)));
    let (b, _) = st.bind_pipeline_buffer(22);
    assert_eq!(b, 1);

    let (u, cmds) = st.bind_pipeline_texture(glenum::TEXTURE_2D, 31);
    assert_eq!(u, 0);
    assert_eq!(cmds, vec![GlCommand::BindTexture(glenum::TEXTURE_2D, 31)]);
    let (u, cmds) = st.bind_pipeline_texture(glenum::TEXTURE_2D, 32);
    assert_eq!(u, 1);
    assert_eq!(
        cmds,
        vec![GlCommand::ActiveTexture(glenum::TEXTURE0 + 1), GlCommand::BindTexture(glenum::TEXTURE_2D, 32)]
    );
    st.release_texture_unit(u);
    let (u, cmds) = st.bind_pipeline_texture(glenum::TEXTURE_2D, 32);
    assert_eq!(u, 1);
    assert_eq!(cmds, vec![]);
}

#[test]
fn destroying_framebuffers() {
    let mut st = state();
    st.bind_vertex_array(4, Bind::Cached);
    assert_eq!(
        destroy_framebuffer(&mut st, 5, Some(6)),
        vec![
            GlCommand::DeleteRenderbuffer(6),
            GlCommand::BindRenderbuffer(0),
            GlCommand::DeleteFramebuffer(5),
            GlCommand::BindVertexArray(0),
        ]
    );
    assert_eq!(destroy_framebuffer(&mut st, 7, None), vec![GlCommand::DeleteFramebuffer(7)]);
    assert_eq!(destroy_framebuffer(&mut st, 0, None), vec![]);
}

/// A small stand-in for a context: the capabilities and functions that render states set.
#[derive(Debug, Default, PartialEq)]
struct FakeContext {
    blend: bool,
    depth_test: bool,
    cull_face: bool,
    blend_func: (u32, u32),
    depth_func: u32,
    front_face: u32,
    cull_face_mode: u32,
}

impl FakeContext {
    fn perform(&mut self, cmd: &GlCommand) {
        match *cmd {
            GlCommand::Enable(c) | GlCommand::Disable(c) => {
                let on = matches!(cmd, GlCommand::Enable(_));
                if c == glenum::BLEND {
                    self.blend = on;
                } else if c == glenum::DEPTH_TEST {
                    self.depth_test = on;
                } else if c == glenum::CULL_FACE {
                    self.cull_face = on;
                }
            }
            GlCommand::BlendFunc(s, d) => self.blend_func = (s, d),
            GlCommand::DepthFunc(f) => self.depth_func = f,
            GlCommand::FrontFace(o) => self.front_face = o,
            GlCommand::CullFace(m) => self.cull_face_mode = m,
            _ => (),
        }
    }
}

#[test]
fn entered_render_states_are_held_by_the_context() {
    let mut st = state();
    // what the snapshot of `state()` reports
    let mut ctx = FakeContext {
        blend_func: (glenum::ONE, glenum::ZERO),
        depth_func: glenum::LESS,
        front_face: glenum::CCW,
        cull_face_mode: glenum::BACK,
        ..FakeContext::default()
    };
    let states = [
        RenderState {
            blending: Some(Blending { equation: Equation::Additive, src: Factor::SrcAlpha, dst: Factor::One }),
            depth_test: Some(Comparison::Greater),
            face_culling: None,
        },
        RenderState { blending: None, depth_test: Some(Comparison::Less), face_culling: None },
        RenderState {
            blending: Some(Blending { equation: Equation::Additive, src: Factor::SrcAlpha, dst: Factor::One }),
            depth_test: None,
            face_culling: Some(FaceCulling { order: FaceCullingOrder::CCW, mode: FaceCullingMode::Back }),
        },
    ];
    for rs in states.iter().chain(states.iter()) {
        for cmd in st.enter_render_state(*rs) {
            ctx.perform(&cmd);
        }
        assert_eq!(ctx.blend, rs.blending.is_some());
        if rs.blending.is_some() {
            assert_eq!(ctx.blend_func, (glenum::SRC_ALPHA, glenum::ONE));
        }
        assert_eq!(ctx.depth_test, rs.depth_test.is_some());
        if let Some(c) = rs.depth_test {
            let f = if c == Comparison::Greater { glenum::GREATER } else { glenum::LESS };
            assert_eq!(ctx.depth_func, f);
        }
        assert_eq!(ctx.cull_face, rs.face_culling.is_some());
        if rs.face_culling.is_some() {
            assert_eq!((ctx.front_face, ctx.cull_face_mode), (glenum::CCW, glenum::BACK));
        }
    }
}

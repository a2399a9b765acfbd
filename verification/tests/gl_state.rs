use luminance_gl::glenum;
use luminance_gl::render_state::{
    BlendingState, Comparison, DepthTest, Equation, Factor, FaceCullingMode, FaceCullingOrder, FaceCullingState,
    VertexRestart,
};
use luminance_gl::state::{decode_gl_boolean, take_state_token, Bind, ContextSnapshot, GLState, GlCommand, StateQueryError, ViewportRect};

fn snapshot() -> ContextSnapshot {
    ContextSnapshot {
        viewport: ViewportRect { x: 0, y: 0, width: 800, height: 600 },
        blend_enabled: glenum::FALSE,
        blend_equation_rgb: glenum::FUNC_ADD,
        blend_equation_alpha: glenum::FUNC_ADD,
        blend_src_rgb: glenum::ONE,
        blend_dst_rgb: glenum::ZERO,
        blend_src_alpha: glenum::ONE,
        blend_dst_alpha: glenum::ZERO,
        depth_test_enabled: glenum::FALSE,
        cull_face_enabled: glenum::FALSE,
        front_face: glenum::CCW,
        cull_face_mode: glenum::BACK,
        primitive_restart_enabled: glenum::FALSE,
        active_texture: glenum::TEXTURE0,
        draw_framebuffer_binding: 0,
        vertex_array_binding: 0,
        current_program: 0,
        framebuffer_srgb_enabled: glenum::FALSE,
    }
}

fn state() -> GLState {
    match GLState::from_context(snapshot()) {
        Ok(st) => st,
        Err(e) => panic!("unexpected state query error: {:?}", e),
    }
}

#[test]
fn gl_booleans_decode() {
    assert_eq!(decode_gl_boolean(glenum::TRUE), Some(true));
    assert_eq!(decode_gl_boolean(glenum::FALSE), Some(false));
    assert_eq!(decode_gl_boolean(2), None);
}

#[test]
fn state_from_context_keeps_what_the_context_holds() {
    let mut st = state();
    // every value queried from the context is cached: asking for it again issues nothing
    assert_eq!(st.set_viewport(ViewportRect { x: 0, y: 0, width: 800, height: 600 }), None);
    assert_eq!(st.set_blending_state(BlendingState::Off), None);
    assert_eq!(st.set_blending_equation(Equation::Additive), None);
    assert_eq!(st.set_blending_func(Factor::One, Factor::Zero), None);
    assert_eq!(st.set_depth_test(DepthTest::Off), None);
    assert_eq!(st.set_depth_test_comparison(Comparison::Less), None);
    assert_eq!(st.set_face_culling_state(FaceCullingState::Off), None);
    assert_eq!(st.set_face_culling_order(FaceCullingOrder::CCW), None);
    assert_eq!(st.set_face_culling_mode(FaceCullingMode::Back), None);
    assert_eq!(st.set_vertex_restart(VertexRestart::Off), None);
    assert_eq!(st.set_patch_vertex_nb(0), None);
    assert_eq!(st.set_texture_unit(0), None);
    assert_eq!(st.bind_draw_framebuffer(0), None);
    assert_eq!(st.enable_srgb_framebuffer(false), None);
    assert_eq!(st.use_program(0), None);
}

#[test]
fn state_from_context_reports_the_first_corrupted_value() {
    let mut snap = snapshot();
    snap.blend_enabled = 7;
    assert_eq!(GLState::from_context(snap).err(), Some(StateQueryError::UnknownBlendingState(7)));

    let mut snap = snapshot();
    snap.blend_equation_alpha = 0x1234;
    assert_eq!(GLState::from_context(snap).err(), Some(StateQueryError::UnknownBlendingEquation(0x1234)));

    let mut snap = snapshot();
    snap.blend_src_rgb = 0x4242;
    snap.blend_dst_rgb = 0x4343;
    assert_eq!(GLState::from_context(snap).err(), Some(StateQueryError::UnknownBlendingSrcFactor(0x4242)));

    let mut snap = snapshot();
    snap.blend_dst_alpha = 0x4343;
    assert_eq!(GLState::from_context(snap).err(), Some(StateQueryError::UnknownBlendingDstFactor(0x4343)));

    let mut snap = snapshot();
    snap.depth_test_enabled = 3;
    assert_eq!(GLState::from_context(snap).err(), Some(StateQueryError::UnknownDepthTestState(3)));

    let mut snap = snapshot();
    snap.cull_face_enabled = 3;
    assert_eq!(GLState::from_context(snap).err(), Some(StateQueryError::UnknownFaceCullingState(3)));

    let mut snap = snapshot();
    snap.front_face = 5;
    assert_eq!(GLState::from_context(snap).err(), Some(StateQueryError::UnknownFaceCullingOrder(5)));

    let mut snap = snapshot();
    snap.cull_face_mode = 5;
    assert_eq!(GLState::from_context(snap).err(), Some(StateQueryError::UnknownFaceCullingMode(5)));

    let mut snap = snapshot();
    snap.primitive_restart_enabled = 9;
    assert_eq!(GLState::from_context(snap).err(), Some(StateQueryError::UnknownVertexRestartState(9)));

    let mut snap = snapshot();
    snap.framebuffer_srgb_enabled = 9;
    assert_eq!(GLState::from_context(snap).err(), Some(StateQueryError::UnknownSRGBFramebufferState(9)));
}

#[test]
fn repeated_requests_are_cached() {
    let mut st = state();
    let vp = ViewportRect { x: 10, y: 20, width: 30, height: 40 };
    assert_eq!(st.set_viewport(vp), Some(GlCommand::Viewport { x: 10, y: 20, width: 30, height: 40 }));
    assert_eq!(st.set_viewport(vp), None);

    assert_eq!(st.set_blending_state(BlendingState::On), Some(GlCommand::Enable(glenum::BLEND)));
    assert_eq!(st.set_blending_state(BlendingState::On), None);
    assert_eq!(st.set_blending_state(BlendingState::Off), Some(GlCommand::Disable(glenum::BLEND)));

    assert_eq!(st.set_depth_test(DepthTest::On), Some(GlCommand::Enable(glenum::DEPTH_TEST)));
    assert_eq!(st.set_depth_test_comparison(Comparison::Always), Some(GlCommand::DepthFunc(glenum::ALWAYS)));
    assert_eq!(st.set_depth_test_comparison(Comparison::Always), None);

    assert_eq!(st.set_face_culling_order(FaceCullingOrder::CW), Some(GlCommand::FrontFace(glenum::CW)));
    assert_eq!(st.set_face_culling_mode(FaceCullingMode::Both), Some(GlCommand::CullFace(glenum::FRONT_AND_BACK)));
    assert_eq!(st.set_vertex_restart(VertexRestart::On), Some(GlCommand::Enable(glenum::PRIMITIVE_RESTART)));
    assert_eq!(st.set_patch_vertex_nb(3), Some(GlCommand::PatchParameter(glenum::PATCH_VERTICES, 3)));
    assert_eq!(st.set_patch_vertex_nb(3), None);
    assert_eq!(st.use_program(5), Some(GlCommand::UseProgram(5)));
    assert_eq!(st.use_program(5), None);
}

#[test]
fn separate_blending_requests_are_cached_as_a_whole() {
    let mut st = state();
    assert_eq!(
        st.set_blending_equation_separate(Equation::Additive, Equation::Max),
        Some(GlCommand::BlendEquationSeparate(glenum::FUNC_ADD, glenum::MAX))
    );
    assert_eq!(st.set_blending_equation_separate(Equation::Additive, Equation::Max), None);
    assert_eq!(st.set_blending_equation(Equation::Additive), Some(GlCommand::BlendEquation(glenum::FUNC_ADD)));

    assert_eq!(
        st.set_blending_func_separate(Factor::SrcAlpha, Factor::SrcAlphaComplement, Factor::One, Factor::Zero),
        Some(GlCommand::BlendFuncSeparate(glenum::SRC_ALPHA, glenum::ONE_MINUS_SRC_ALPHA, glenum::ONE, glenum::ZERO))
    );
    assert_eq!(
        st.set_blending_func_separate(Factor::SrcAlpha, Factor::SrcAlphaComplement, Factor::One, Factor::Zero),
        None
    );
    assert_eq!(st.set_blending_func(Factor::One, Factor::One), Some(GlCommand::BlendFunc(glenum::ONE, glenum::ONE)));
}

#[test]
fn invalidated_requests_reach_the_context() {
    let mut st = state();
    st.invalidate_viewport();
    assert_eq!(
        st.set_viewport(ViewportRect { x: 0, y: 0, width: 800, height: 600 }),
        Some(GlCommand::Viewport { x: 0, y: 0, width: 800, height: 600 })
    );
    st.invalidate_blending_state();
    assert_eq!(st.set_blending_state(BlendingState::Off), Some(GlCommand::Disable(glenum::BLEND)));
    st.invalidate_depth_test();
    assert_eq!(st.set_depth_test(DepthTest::Off), Some(GlCommand::Disable(glenum::DEPTH_TEST)));
    st.invalidate_face_culling_state();
    assert_eq!(st.set_face_culling_state(FaceCullingState::Off), Some(GlCommand::Disable(glenum::CULL_FACE)));
    st.invalidate_framebuffer();
    assert_eq!(st.bind_draw_framebuffer(0), Some(GlCommand::BindFramebuffer(glenum::DRAW_FRAMEBUFFER, 0)));
    st.reset_srgb_framebuffer_enabled();
    assert_eq!(st.enable_srgb_framebuffer(false), Some(GlCommand::Disable(glenum::FRAMEBUFFER_SRGB)));
    // these bindings are reset to 0: a program other than 0 reaches the context again
    st.use_program(4);
    st.invalidate_shader_program();
    assert_eq!(st.use_program(0), None);
    assert_eq!(st.use_program(4), Some(GlCommand::UseProgram(4)));
    st.bind_vertex_array(2, Bind::Cached);
    st.invalidate_vertex_array();
    assert_eq!(st.bind_vertex_array(2, Bind::Cached), Some(GlCommand::BindVertexArray(2)));
    st.bind_array_buffer(6, Bind::Cached);
    st.invalidate_array_buffer();
    assert_eq!(st.bind_array_buffer(6, Bind::Cached), Some(GlCommand::BindBuffer(glenum::ARRAY_BUFFER, 6)));
    st.bind_element_array_buffer(6, Bind::Cached);
    st.invalidate_element_array_buffer();
    assert_eq!(
        st.bind_element_array_buffer(6, Bind::Cached),
        Some(GlCommand::BindBuffer(glenum::ELEMENT_ARRAY_BUFFER, 6))
    );
    st.invalidate_blending_equation();
    assert_eq!(st.set_blending_equation(Equation::Additive), Some(GlCommand::BlendEquation(glenum::FUNC_ADD)));
    st.invalidate_blending_func();
    assert_eq!(st.set_blending_func(Factor::One, Factor::Zero), Some(GlCommand::BlendFunc(glenum::ONE, glenum::ZERO)));
    st.invalidate_depth_test_comparison();
    assert_eq!(st.set_depth_test_comparison(Comparison::Less), Some(GlCommand::DepthFunc(glenum::LESS)));
    st.invalidate_face_culling_order();
    assert_eq!(st.set_face_culling_order(FaceCullingOrder::CCW), Some(GlCommand::FrontFace(glenum::CCW)));
    st.invalidate_face_culling_mode();
    assert_eq!(st.set_face_culling_mode(FaceCullingMode::Back), Some(GlCommand::CullFace(glenum::BACK)));
    st.invalidate_vertex_restart();
    assert_eq!(st.set_vertex_restart(VertexRestart::Off), Some(GlCommand::Disable(glenum::PRIMITIVE_RESTART)));
    st.invalidate_patch_vertex_nb();
    assert_eq!(st.set_patch_vertex_nb(0), Some(GlCommand::PatchParameter(glenum::PATCH_VERTICES, 0)));
    st.invalidate_texture_unit();
    assert_eq!(st.set_texture_unit(0), Some(GlCommand::ActiveTexture(glenum::TEXTURE0)));
}

#[test]
fn forced_bindings_always_reach_the_context() {
    let mut st = state();
    assert_eq!(st.bind_array_buffer(3, Bind::Cached), Some(GlCommand::BindBuffer(glenum::ARRAY_BUFFER, 3)));
    assert_eq!(st.bind_array_buffer(3, Bind::Cached), None);
    assert_eq!(st.bind_array_buffer(3, Bind::Forced), Some(GlCommand::BindBuffer(glenum::ARRAY_BUFFER, 3)));
    assert_eq!(
        st.bind_element_array_buffer(4, Bind::Cached),
        Some(GlCommand::BindBuffer(glenum::ELEMENT_ARRAY_BUFFER, 4))
    );
    assert_eq!(st.bind_vertex_array(2, Bind::Cached), Some(GlCommand::BindVertexArray(2)));
    assert_eq!(st.bind_vertex_array(2, Bind::Cached), None);
    assert_eq!(st.unbind_vertex_array(), Some(GlCommand::BindVertexArray(0)));
    assert_eq!(st.unbind_vertex_array(), None);
}

#[test]
fn textures_are_bound_per_unit() {
    let mut st = state();
    assert_eq!(st.set_texture_unit(2), Some(GlCommand::ActiveTexture(glenum::TEXTURE0 + 2)));
    assert_eq!(st.bind_texture(glenum::TEXTURE_2D, 7), Some(GlCommand::BindTexture(glenum::TEXTURE_2D, 7)));
    assert_eq!(st.bind_texture(glenum::TEXTURE_2D, 7), None);
    assert_eq!(st.bind_texture(glenum::TEXTURE_3D, 7), Some(GlCommand::BindTexture(glenum::TEXTURE_3D, 7)));
    // a unit past the ones already registered still gets its texture
    assert_eq!(st.set_texture_unit(100), Some(GlCommand::ActiveTexture(glenum::TEXTURE0 + 100)));
    assert_eq!(st.bind_texture(glenum::TEXTURE_2D, 9), Some(GlCommand::BindTexture(glenum::TEXTURE_2D, 9)));
    assert_eq!(st.bind_texture(glenum::TEXTURE_2D, 9), None);
    st.invalidate_bound_textures();
    assert_eq!(st.bind_texture(glenum::TEXTURE_2D, 9), Some(GlCommand::BindTexture(glenum::TEXTURE_2D, 9)));
}

#[test]
fn uniform_buffers_are_bound_per_binding_point() {
    let mut st = state();
    assert_eq!(st.bind_buffer_base(11, 1), Some(GlCommand::BindBufferBase(glenum::UNIFORM_BUFFER, 1, 11)));
    assert_eq!(st.bind_buffer_base(11, 1), None);
    assert_eq!(st.bind_buffer_base(12, 50), Some(GlCommand::BindBufferBase(glenum::UNIFORM_BUFFER, 50, 12)));
    assert_eq!(st.bind_buffer_base(12, 50), None);
    st.invalidate_bound_uniform_buffers();
    assert_eq!(st.bind_buffer_base(11, 1), Some(GlCommand::BindBufferBase(glenum::UNIFORM_BUFFER, 1, 11)));
}

#[test]
fn unbinding_a_buffer_forgets_it() {
    let mut st = state();
    st.bind_array_buffer(3, Bind::Cached);
    assert_eq!(st.unbind_buffer(3), Some(GlCommand::BindBuffer(glenum::ARRAY_BUFFER, 0)));
    assert_eq!(st.bind_array_buffer(3, Bind::Cached), Some(GlCommand::BindBuffer(glenum::ARRAY_BUFFER, 3)));

    st.bind_element_array_buffer(4, Bind::Cached);
    assert_eq!(st.unbind_buffer(4), Some(GlCommand::BindBuffer(glenum::ELEMENT_ARRAY_BUFFER, 0)));

    st.bind_buffer_base(8, 2);
    assert_eq!(st.unbind_buffer(8), None);
    // the binding point was cleared, so binding the buffer there again reaches the context
    assert_eq!(st.bind_buffer_base(8, 2), Some(GlCommand::BindBufferBase(glenum::UNIFORM_BUFFER, 2, 8)));
}

#[test]
fn texture_pool_hands_out_reserved_textures() {
    let mut st = state();
    assert_eq!(st.take_pooled_texture(), None);
    assert_eq!(st.textures_to_reserve(3), 3);
    st.add_pooled_textures(&vec![5, 6, 7]);
    assert_eq!(st.textures_to_reserve(2), 0);
    assert_eq!(st.textures_to_reserve(5), 2);
    assert_eq!(st.take_pooled_texture(), Some(7));
    assert_eq!(st.take_pooled_texture(), Some(6));
    assert_eq!(st.take_pooled_texture(), Some(5));
    assert_eq!(st.take_pooled_texture(), None);
}

#[test]
fn binding_stack_reuses_released_bindings() {
    let mut st = state();
    let a = st.acquire_texture_unit();
    let b = st.acquire_texture_unit();
    assert_eq!((a, b), (0, 1));
    st.release_texture_unit(a);
    assert_eq!(st.acquire_texture_unit(), 0);
    assert_eq!(st.acquire_texture_unit(), 2);

    let x = st.acquire_buffer_binding();
    let y = st.acquire_buffer_binding();
    assert_eq!((x, y), (0, 1));
    st.release_buffer_binding(y);
    st.release_buffer_binding(x);
    assert_eq!(st.acquire_buffer_binding(), 0);
    assert_eq!(st.acquire_buffer_binding(), 1);
    assert_eq!(st.acquire_buffer_binding(), 2);
}

#[test]
fn the_active_texture_unit_is_cached_as_a_unit() {
    let mut snap = snapshot();
    snap.active_texture = glenum::TEXTURE0 + 3;
    let mut st = GLState::from_context(snap).unwrap();
    assert_eq!(st.set_texture_unit(3), None);
    assert_eq!(st.bind_texture(glenum::TEXTURE_2D, 5), Some(GlCommand::BindTexture(glenum::TEXTURE_2D, 5)));
    // the binding was recorded for unit 3: binding the same texture there again issues nothing
    assert_eq!(st.bind_texture(glenum::TEXTURE_2D, 5), None);
    assert_eq!(st.set_texture_unit(0), Some(GlCommand::ActiveTexture(glenum::TEXTURE0)));
    assert_eq!(st.bind_texture(glenum::TEXTURE_2D, 5), Some(GlCommand::BindTexture(glenum::TEXTURE_2D, 5)));

    // a value that designates no unit leaves the unit unknown
    snap.active_texture = 7;
    let mut st = GLState::from_context(snap).unwrap();
    assert_eq!(st.set_texture_unit(0), Some(GlCommand::ActiveTexture(glenum::TEXTURE0)));
}

#[test]
fn acquired_units_differ_from_held_ones() {
    let mut st = state();
    let mut held: Vec<u32> = Vec::new();
    for _ in 0..4 {
        held.push(st.acquire_texture_unit());
    }
    st.release_texture_unit(held[2]);
    st.release_texture_unit(held[0]);
    let live = vec![held[1], held[3]];
    let a = st.acquire_texture_unit();
    let b = st.acquire_texture_unit();
    let c = st.acquire_texture_unit();
    // the most recently released unit comes back first, then the other one, then a new one
    assert_eq!((a, b, c), (0, 2, 4));
    for u in [a, b, c] {
        assert!(!live.contains(&u));
    }
}

#[test]
fn one_graphics_state_per_thread() {
    let (left, allowed) = take_state_token(true);
    assert!(!left);
    assert_eq!(allowed, Ok(()));
    assert_eq!(take_state_token(left), (false, Err(StateQueryError::UnavailableGLState)));
}

use luminance_gl::glenum;
use luminance_gl::render_state::{BlendingState, Comparison, DepthTest, DepthWrite, Equation, Factor, ScissorState};
use luminance_gl::state::ViewportRect;
use luminance_gl::webgl2_state::{
    backend_query, Bind, ContextParam, QueryError, ScissorRegion, StateQueryError, WebGL2Snapshot, WebGL2State, WebGlCommand, REQUIRED_EXTENSIONS,
};

fn snapshot() -> WebGL2Snapshot {
    WebGL2Snapshot {
        extensions_available: [true, true],
        viewport: Some(vec![0, 0, 800, 600]),
        clear_color_ok: true,
        blend_enabled: false,
        blend_equation_rgb: Some(glenum::FUNC_ADD),
        blend_equation_alpha: Some(glenum::FUNC_ADD),
        blend_src_rgb: Some(glenum::ONE),
        blend_src_alpha: Some(glenum::ONE),
        blend_dst_rgb: Some(glenum::ZERO),
        blend_dst_alpha: Some(glenum::ZERO),
        depth_test_enabled: false,
        depth_write_mask: Some(true),
        cull_face_enabled: false,
        front_face: Some(glenum::CCW),
        cull_face_mode: Some(glenum::BACK),
        scissor_test_enabled: false,
        scissor_box: Some(vec![0, 0, 800, 600]),
    }
}

fn state() -> WebGL2State {
    match WebGL2State::from_context(&snapshot()) {
        Ok(st) => st,
        Err(e) => panic!("unexpected state query error: {:?}", e),
    }
}

#[test]
fn required_extensions() {
    assert_eq!(REQUIRED_EXTENSIONS, ["OES_texture_float_linear", "EXT_color_buffer_float"]);
}

#[test]
fn missing_extensions_are_reported_first() {
    let mut snap = snapshot();
    snap.extensions_available = [false, false];
    snap.viewport = None;
    assert_eq!(
        WebGL2State::from_context(&snap).err(),
        Some(StateQueryError::CannotRetrieveRequiredWebGL2Extensions(vec![
            "OES_texture_float_linear".to_string(),
            "EXT_color_buffer_float".to_string(),
        ]))
    );
    snap.extensions_available = [true, false];
    assert_eq!(
        WebGL2State::from_context(&snap).err(),
        Some(StateQueryError::CannotRetrieveRequiredWebGL2Extensions(vec!["EXT_color_buffer_float".to_string()]))
    );
}

#[test]
fn failing_queries_are_reported_in_order() {
    let mut snap = snapshot();
    snap.viewport = Some(vec![0, 0]);
    assert_eq!(WebGL2State::from_context(&snap).err(), Some(StateQueryError::UnknownViewportInitialState));

    let mut snap = snapshot();
    snap.clear_color_ok = false;
    assert_eq!(WebGL2State::from_context(&snap).err(), Some(StateQueryError::UnknownClearColorInitialState));

    let mut snap = snapshot();
    snap.blend_equation_rgb = None;
    assert_eq!(WebGL2State::from_context(&snap).err(), Some(StateQueryError::CannotRetrieveBlendingEquationRGB));

    let mut snap = snapshot();
    snap.blend_equation_alpha = Some(3);
    assert_eq!(WebGL2State::from_context(&snap).err(), Some(StateQueryError::UnknownBlendingEquation(3)));

    let mut snap = snapshot();
    snap.blend_src_alpha = Some(77);
    assert_eq!(WebGL2State::from_context(&snap).err(), Some(StateQueryError::UnknownBlendingSrcFactorAlpha(77)));

    let mut snap = snapshot();
    snap.blend_dst_rgb = None;
    assert_eq!(WebGL2State::from_context(&snap).err(), Some(StateQueryError::CannotRetrieveBlendingDstFactorRGB));

    let mut snap = snapshot();
    snap.depth_write_mask = None;
    assert_eq!(WebGL2State::from_context(&snap).err(), Some(StateQueryError::UnknownDepthWriteMaskState));

    let mut snap = snapshot();
    snap.front_face = Some(1);
    assert_eq!(WebGL2State::from_context(&snap).err(), Some(StateQueryError::UnknownFaceCullingOrder));

    let mut snap = snapshot();
    snap.cull_face_mode = None;
    assert_eq!(WebGL2State::from_context(&snap).err(), Some(StateQueryError::UnknownFaceCullingMode));

    let mut snap = snapshot();
    snap.scissor_box = None;
    assert_eq!(WebGL2State::from_context(&snap).err(), Some(StateQueryError::UnknownScissorRegionInitialState));

    let mut snap = snapshot();
    snap.scissor_box = Some(vec![1, 2, 3]);
    assert_eq!(WebGL2State::from_context(&snap).err(), Some(StateQueryError::UnknownScissorRegionInitialState));
}

#[test]
fn webgl2_state_caches_what_the_context_holds() {
    let mut st = state();
    assert_eq!(st.set_viewport(ViewportRect { x: 0, y: 0, width: 800, height: 600 }), None);
    assert_eq!(st.set_blending_state(BlendingState::Off), None);
    assert_eq!(st.set_blending_equation(Equation::Additive), None);
    assert_eq!(st.set_blending_func(Factor::One, Factor::Zero), None);
    assert_eq!(st.set_depth_test(DepthTest::Off), None);
    assert_eq!(st.set_depth_test_comparison(Comparison::Less), None);
    assert_eq!(st.set_depth_write(DepthWrite::On), None);
    assert_eq!(st.set_scissor_state(ScissorState::Off), None);
    assert_eq!(st.set_scissor_region(ScissorRegion { x: 0, y: 0, width: 800, height: 600 }), None);

    assert_eq!(st.set_depth_write(DepthWrite::Off), Some(WebGlCommand::DepthMask(false)));
    assert_eq!(st.set_depth_write(DepthWrite::Off), None);
    assert_eq!(st.set_scissor_state(ScissorState::On), Some(WebGlCommand::Enable(glenum::SCISSOR_TEST)));
    assert_eq!(
        st.set_scissor_region(ScissorRegion { x: 1, y: 2, width: 3, height: 4 }),
        Some(WebGlCommand::Scissor { x: 1, y: 2, width: 3, height: 4 })
    );
    assert_eq!(st.set_blending_state(BlendingState::On), Some(WebGlCommand::Enable(glenum::BLEND)));
    assert_eq!(
        st.set_blending_func_separate(Factor::SrcAlpha, Factor::One, Factor::One, Factor::One),
        Some(WebGlCommand::BlendFuncSeparate(glenum::SRC_ALPHA, glenum::ONE, glenum::ONE, glenum::ONE))
    );
    assert_eq!(st.set_blending_func_separate(Factor::SrcAlpha, Factor::One, Factor::One, Factor::One), None);
}

#[test]
fn webgl2_bindings() {
    let mut st = state();
    assert_eq!(st.bind_draw_framebuffer(None), None);
    assert_eq!(st.bind_draw_framebuffer(Some(2)), Some(WebGlCommand::BindFramebuffer(glenum::FRAMEBUFFER, Some(2))));
    assert_eq!(
        st.bind_read_framebuffer(Some(2)),
        Some(WebGlCommand::BindFramebuffer(glenum::READ_FRAMEBUFFER, Some(2)))
    );
    assert_eq!(st.use_program(Some(3)), Some(WebGlCommand::UseProgram(Some(3))));
    assert_eq!(st.use_program(Some(3)), None);
    assert_eq!(st.bind_vertex_array(Some(4), Bind::Cached), Some(WebGlCommand::BindVertexArray(Some(4))));
    assert_eq!(st.bind_vertex_array(Some(4), Bind::Cached), None);
    assert_eq!(st.bind_vertex_array(Some(4), Bind::Forced), Some(WebGlCommand::BindVertexArray(Some(4))));

    assert_eq!(st.bind_array_buffer(Some(5), Bind::Cached), Some(WebGlCommand::BindBuffer(glenum::ARRAY_BUFFER, Some(5))));
    assert_eq!(st.unbind_buffer(5), Some(WebGlCommand::BindBuffer(glenum::ARRAY_BUFFER, None)));
    assert_eq!(
        st.bind_element_array_buffer(Some(6), Bind::Cached),
        Some(WebGlCommand::BindBuffer(glenum::ELEMENT_ARRAY_BUFFER, Some(6)))
    );
    assert_eq!(st.unbind_buffer(6), Some(WebGlCommand::BindBuffer(glenum::ELEMENT_ARRAY_BUFFER, None)));

    assert_eq!(
        st.bind_buffer_base(7, 3),
        Some(WebGlCommand::BindBufferBase(glenum::UNIFORM_BUFFER, 3, Some(7)))
    );
    assert_eq!(st.bind_buffer_base(7, 3), None);
    assert_eq!(st.unbind_buffer(7), None);
    assert_eq!(
        st.bind_buffer_base(7, 3),
        Some(WebGlCommand::BindBufferBase(glenum::UNIFORM_BUFFER, 3, Some(7)))
    );

    assert_eq!(st.set_texture_unit(1), Some(WebGlCommand::ActiveTexture(glenum::TEXTURE0 + 1)));
    assert_eq!(st.bind_texture(glenum::TEXTURE_2D, Some(8)), Some(WebGlCommand::BindTexture(glenum::TEXTURE_2D, Some(8))));
    assert_eq!(st.bind_texture(glenum::TEXTURE_2D, Some(8)), None);
}

#[test]
fn webgl2_texture_pool() {
    let mut st = state();
    assert_eq!(st.textures_to_reserve(3), 3);
    // two texture objects could be created out of the three needed
    st.add_reserved_textures(3, &vec![10, 11]);
    assert_eq!(st.textures_to_reserve(5), 0);
    assert_eq!(st.take_pooled_texture(), Some(11));
    assert_eq!(st.take_pooled_texture(), Some(10));
    // the empty entries ask for a new texture object
    assert_eq!(st.take_pooled_texture(), None);
}

#[test]
fn webgl2_cached_parameters() {
    let mut st = state();
    assert_eq!(st.cached_param(ContextParam::VendorName), None);
    assert_eq!(st.remember_param(ContextParam::VendorName, None), None);
    assert_eq!(st.cached_param(ContextParam::VendorName), None);
    assert_eq!(st.remember_param(ContextParam::VendorName, Some("acme".to_string())), Some("acme".to_string()));
    assert_eq!(st.cached_param(ContextParam::VendorName), Some("acme".to_string()));
    assert_eq!(st.cached_param(ContextParam::GlslVersion), None);
    assert_eq!(st.get_param(ContextParam::VendorName, Some("other".to_string())), Some("acme".to_string()));
    assert_eq!(st.get_param(ContextParam::RendererName, None), None);
    assert_eq!(st.get_param(ContextParam::RendererName, Some("gpu".to_string())), Some("gpu".to_string()));
    assert_eq!(st.get_param(ContextParam::RendererName, None), Some("gpu".to_string()));

    assert!(st.max_texture_array_elements_query_needed());
    assert_eq!(st.get_max_texture_array_elements(Some(256)), Some(256));
    assert!(!st.max_texture_array_elements_query_needed());
    // the first answer stays cached
    assert_eq!(st.get_max_texture_array_elements(Some(8)), Some(256));
    assert_eq!(st.get_max_texture_array_elements(None), Some(256));

    assert_eq!(st.readback_framebuffer(), None);
    st.set_readback_framebuffer(Some(9));
    assert_eq!(st.readback_framebuffer(), Some(9));
}

#[test]
fn webgl2_binding_stack() {
    let mut st = state();
    assert_eq!(st.acquire_texture_unit(), 0);
    assert_eq!(st.acquire_texture_unit(), 1);
    st.release_texture_unit(0);
    assert_eq!(st.acquire_texture_unit(), 0);
    assert_eq!(st.acquire_buffer_binding(), 0);
    st.release_buffer_binding(0);
    assert_eq!(st.acquire_buffer_binding(), 0);
    assert_eq!(st.acquire_buffer_binding(), 1);
}

#[test]
fn backend_queries() {
    assert_eq!(backend_query(ContextParam::VendorName, Some("acme".to_string())), Ok("acme".to_string()));
    assert_eq!(backend_query(ContextParam::VendorName, None), Err(QueryError::NoBackendAuthor));
    assert_eq!(backend_query(ContextParam::RendererName, None), Err(QueryError::NoBackendName));
    assert_eq!(backend_query(ContextParam::WebGlVersion, None), Err(QueryError::NoBackendVersion));
    assert_eq!(backend_query(ContextParam::GlslVersion, None), Err(QueryError::NoBackendShadingLanguageVersion));
}

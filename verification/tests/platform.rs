use luminance_gl::errors::{
    join_strings, mapping_buffer, push_decimal, BufferError, GlfwSurfaceError, GlutinError, Sdl2SurfaceError,
    SliceBufferError, WebSysWebGL2SurfaceError,
};
use luminance_gl::state::StateQueryError;
use luminance_gl::webgl2_state::StateQueryError as WebGl2StateQueryError;
use luminance_gl::windowing::{canvas_size, sdl2_window_setup, ContextProfile, CursorMode, FullscreenKind, Sdl2WindowSetup, WindowDim, WindowOpt};

#[test]
fn window_options_default() {
    let opt = WindowOpt::default();
    assert_eq!(*opt.dim(), WindowDim::Windowed { width: 960, height: 540 });
    assert_eq!(*opt.cursor_mode(), CursorMode::Visible);
    assert_eq!(*opt.num_samples(), None);
}

#[test]
fn window_options_set_then_get() {
    let opt = WindowOpt::default()
        .set_dim(WindowDim::Fullscreen)
        .set_cursor_mode(CursorMode::Disabled)
        .set_num_samples(Some(4));
    assert_eq!(*opt.dim(), WindowDim::Fullscreen);
    assert_eq!(*opt.cursor_mode(), CursorMode::Disabled);
    assert_eq!(*opt.num_samples(), Some(4));
    // setting one option leaves the others
    let opt = opt.set_num_samples(None);
    assert_eq!(*opt.dim(), WindowDim::Fullscreen);
    assert_eq!(*opt.num_samples(), None);
    // a plain number is accepted too
    let opt = opt.set_num_samples(2u32);
    assert_eq!(*opt.num_samples(), Some(2));
    let opt = opt.set_num_samples(None);
    assert_eq!(*opt.dim(), WindowDim::Fullscreen);
    assert_eq!(*opt.cursor_mode(), CursorMode::Disabled);
    assert_eq!(*opt.num_samples(), None);
}

#[test]
fn canvas_sizes() {
    assert_eq!(canvas_size(WindowDim::Windowed { width: 640, height: 480 }), (640, 480));
    assert_eq!(canvas_size(WindowDim::FullscreenRestricted { width: 320, heigth: 200 }), (320, 200));
}

#[test]
fn sdl2_settings() {
    assert_eq!(
        sdl2_window_setup(WindowOpt::default()),
        Sdl2WindowSetup {
            profile: ContextProfile::Core,
            forward_compatible: true,
            major_version: 3,
            minor_version: 3,
            multisample_buffers: 0,
            multisample_samples: 0,
            show_cursor: true,
            relative_mouse_mode: false,
            width: 960,
            height: 540,
            fullscreen: FullscreenKind::Windowed,
        }
    );
    let opt = WindowOpt::default()
        .set_dim(WindowDim::Fullscreen)
        .set_cursor_mode(CursorMode::Disabled)
        .set_num_samples(8u32);
    assert_eq!(
        sdl2_window_setup(opt),
        Sdl2WindowSetup {
            profile: ContextProfile::Core,
            forward_compatible: true,
            major_version: 3,
            minor_version: 3,
            multisample_buffers: 1,
            multisample_samples: 8,
            show_cursor: false,
            relative_mouse_mode: true,
            width: 800,
            height: 600,
            fullscreen: FullscreenKind::Fullscreen,
        }
    );
    let opt = WindowOpt::default()
        .set_dim(WindowDim::FullscreenRestricted { width: 100, heigth: 50 })
        .set_cursor_mode(CursorMode::Invisible);
    let s = sdl2_window_setup(opt);
    assert_eq!((s.width, s.height, s.fullscreen), (100, 50, FullscreenKind::Desktop));
    assert_eq!((s.show_cursor, s.relative_mouse_mode), (false, false));
}

#[test]
fn decimals() {
    let mut s = String::from("n=");
    push_decimal(&mut s, 0);
    assert_eq!(s, "n=0");
    let mut s = String::new();
    push_decimal(&mut s, 4294967295);
    assert_eq!(s, "4294967295");
    let mut s = String::new();
    push_decimal(&mut s, 1020);
    assert_eq!(s, "1020");
}

#[test]
fn joining_strings() {
    assert_eq!(join_strings(&vec![], ", "), "");
    assert_eq!(join_strings(&vec!["a".to_string()], ", "), "a");
    assert_eq!(join_strings(&vec!["a".to_string(), "b".to_string(), "c".to_string()], ", "), "a, b, c");
}

#[test]
fn gl33_state_query_error_messages() {
    assert_eq!(StateQueryError::UnavailableGLState.message(), "unavailable graphics state");
    assert_eq!(StateQueryError::UnknownBlendingState(3).message(), "unknown blending state: 3");
    assert_eq!(StateQueryError::UnknownBlendingEquation(32774).message(), "unknown blending equation: 32774");
    assert_eq!(StateQueryError::UnknownBlendingSrcFactor(12).message(), "unknown blending source factor: 12");
    assert_eq!(StateQueryError::UnknownBlendingDstFactor(13).message(), "unknown blending destination factor: 13");
    assert_eq!(StateQueryError::UnknownDepthTestState(2).message(), "unknown depth test state: 2");
    assert_eq!(StateQueryError::UnknownFaceCullingState(2).message(), "unknown face culling state: 2");
    assert_eq!(StateQueryError::UnknownFaceCullingOrder(7).message(), "unknown face culling order: 7");
    assert_eq!(StateQueryError::UnknownFaceCullingMode(8).message(), "unknown face culling mode: 8");
    assert_eq!(StateQueryError::UnknownVertexRestartState(9).message(), "unknown vertex restart state: 9");
    assert_eq!(StateQueryError::UnknownSRGBFramebufferState(255).message(), "unknown sRGB framebuffer state: 255");
}

#[test]
fn webgl2_state_query_error_messages() {
    assert_eq!(WebGl2StateQueryError::UnavailableWebGL2State.message(), "unavailable graphics state");
    assert_eq!(WebGl2StateQueryError::UnknownBlendingEquation(10).message(), "unknown blending equation: 10");
    assert_eq!(WebGl2StateQueryError::CannotRetrieveBlendingEquationAlpha.message(), "cannot retrieve blending equation (alpha)");
    assert_eq!(
        WebGl2StateQueryError::CannotRetrieveRequiredWebGL2Extensions(vec!["EXT_a".to_string(), "EXT_b".to_string()]).message(),
        "missing WebGL2 extensions: [EXT_a, EXT_b]"
    );
    assert_eq!(WebGl2StateQueryError::UnknownBlendingDstFactorAlpha(5).message(), "unknown blending destination factor (alpha): 5");
    assert_eq!(WebGl2StateQueryError::UnknownScissorRegionInitialState.message(), "unknown scissor region initial state");
}

#[test]
fn surface_errors() {
    assert_eq!(WebSysWebGL2SurfaceError::cannot_grab_window(), WebSysWebGL2SurfaceError::CannotGrabWindow);
    assert_eq!(WebSysWebGL2SurfaceError::cannot_grab_document(), WebSysWebGL2SurfaceError::CannotGrabDocument);
    assert_eq!(
        WebSysWebGL2SurfaceError::not_such_canvas_element("main"),
        WebSysWebGL2SurfaceError::NotSuchCanvasElement("main".to_string())
    );
    assert_eq!(WebSysWebGL2SurfaceError::cannot_grab_webgl2_context(), WebSysWebGL2SurfaceError::CannotGrabWebGL2Context);
    assert_eq!(WebSysWebGL2SurfaceError::no_available_webgl2_context(), WebSysWebGL2SurfaceError::NoAvailableWebGL2Context);
    assert_eq!(WebSysWebGL2SurfaceError::cannot_grab_window().message(), "cannot grab the window node");
    assert_eq!(WebSysWebGL2SurfaceError::cannot_grab_document().message(), "cannot grab the document node");
    assert_eq!(WebSysWebGL2SurfaceError::not_such_canvas_element("main").message(), "cannot grab canvas named main");
    assert_eq!(WebSysWebGL2SurfaceError::cannot_grab_webgl2_context().message(), "cannot grab WebGL2 context");
    assert_eq!(WebSysWebGL2SurfaceError::no_available_webgl2_context().message(), "no available WebGL2 context");
}

#[test]
fn buffer_errors() {
    assert_eq!(BufferError::CannotCreate.message(), "cannot create buffer on the backend");
    assert_eq!(SliceBufferError::MapFailed.message(), "buffer mapping failed");
    assert_eq!(mapping_buffer(true), Err(SliceBufferError::MapFailed));
    assert_eq!(mapping_buffer(false), Ok(()));
}

#[test]
fn platform_error_messages() {
    assert_eq!(Sdl2SurfaceError::InitError("no display".to_string()).message(), "initialization error: no display");
    assert_eq!(Sdl2SurfaceError::WindowCreationFailed("x".to_string()).message(), "failed to create window: x");
    assert_eq!(Sdl2SurfaceError::GlContextInitFailed("y".to_string()).message(), "failed to create OpenGL context: y");
    assert_eq!(Sdl2SurfaceError::VideoInitError("z".to_string()).message(), "failed to initialize video system: z");
    assert_eq!(
        Sdl2SurfaceError::GraphicsStateError(StateQueryError::UnavailableGLState).message(),
        "failed to get graphics state: unavailable graphics state"
    );
    assert_eq!(GlfwSurfaceError::InitError("e".to_string()).message(), "initialization error: e");
    assert_eq!(GlfwSurfaceError::UserError("u".to_string()).message(), "user error: u");
    assert_eq!(
        GlfwSurfaceError::GraphicsStateError(StateQueryError::UnknownBlendingState(4)).message(),
        "failed to get graphics state: unknown blending state: 4"
    );
    assert_eq!(GlutinError::CreationError("c".to_string()).message(), "Glutin surface creation error: c");
    assert_eq!(GlutinError::ContextError("d".to_string()).message(), "Glutin OpenGL context creation error: d");
    assert_eq!(
        GlutinError::GraphicsStateError(StateQueryError::UnavailableGLState).message(),
        "OpenGL graphics state initialization error: unavailable graphics state"
    );
}

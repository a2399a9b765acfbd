//! Error types of the backends and platforms, and their human-readable messages.
use vstd::prelude::*;
use vstd::string::StringExecFns;

use crate::state;
use crate::webgl2_state;

verus! {

/// The decimal digit character of `d`.
pub open spec fn digit_char(d: nat) -> char {
    if d == 0 {
        '0'
    } else if d == 1 {
        '1'
    } else if d == 2 {
        '2'
    } else if d == 3 {
        '3'
    } else if d == 4 {
        '4'
    } else if d == 5 {
        '5'
    } else if d == 6 {
        '6'
    } else if d == 7 {
        '7'
    } else if d == 8 {
        '8'
    } else {
        '9'
    }
}

/// The decimal writing of `n`, without leading zeros.
pub open spec fn decimal(n: nat) -> Seq<char>
    decreases n,
{
    if n < 10 {
        seq![digit_char(n)]
    } else {
        decimal(n / 10).push(digit_char(n % 10))
    }
}

fn digit_str(d: u32) -> (r: &'static str)
    requires
        d < 10,
    ensures
        r@ == seq![digit_char(d as nat)],
{
    proof {
        reveal_strlit("0");
        reveal_strlit("1");
        reveal_strlit("2");
        reveal_strlit("3");
        reveal_strlit("4");
        reveal_strlit("5");
        reveal_strlit("6");
        reveal_strlit("7");
        reveal_strlit("8");
        reveal_strlit("9");
    }
    if d == 0 {
        "0"
    } else if d == 1 {
        "1"
    } else if d == 2 {
        "2"
    } else if d == 3 {
        "3"
    } else if d == 4 {
        "4"
    } else if d == 5 {
        "5"
    } else if d == 6 {
        "6"
    } else if d == 7 {
        "7"
    } else if d == 8 {
        "8"
    } else {
        "9"
    }
}

/// Append the decimal writing of `n` to `s`.
pub fn push_decimal(s: &mut String, n: u32)
    ensures
        final(s)@ == old(s)@ + decimal(n as nat),
    decreases n,
{
    if n >= 10 {
        push_decimal(s, n / 10);
    }
    s.append(digit_str(n % 10));
    assert(final(s)@ =~= old(s)@ + decimal(n as nat)) by {
        if n >= 10 {
            assert(decimal(n as nat) == decimal((n / 10) as nat).push(digit_char((n % 10) as nat)));
        }
    };
}

/// `prefix` followed by the decimal writing of `n`.
fn with_decimal(prefix: &str, n: u32) -> (r: String)
    ensures
        r@ == prefix@ + decimal(n as nat),
{
    let mut s = prefix.to_owned();
    push_decimal(&mut s, n);
    s
}

/// The message of an OpenGL 3.3 state query error.
pub open spec fn state_query_error_message(e: state::StateQueryError) -> Seq<char> {
    match e {
        state::StateQueryError::UnavailableGLState => "unavailable graphics state"@,
        state::StateQueryError::UnknownBlendingState(s) => "unknown blending state: "@ + decimal(s as nat),
        state::StateQueryError::UnknownBlendingEquation(x) => "unknown blending equation: "@ + decimal(x as nat),
        state::StateQueryError::UnknownBlendingSrcFactor(x) => "unknown blending source factor: "@ + decimal(
            x as nat,
        ),
        state::StateQueryError::UnknownBlendingDstFactor(x) => "unknown blending destination factor: "@
            + decimal(x as nat),
        state::StateQueryError::UnknownDepthTestState(s) => "unknown depth test state: "@ + decimal(s as nat),
        state::StateQueryError::UnknownFaceCullingState(s) => "unknown face culling state: "@ + decimal(s as nat),
        state::StateQueryError::UnknownFaceCullingOrder(x) => "unknown face culling order: "@ + decimal(x as nat),
        state::StateQueryError::UnknownFaceCullingMode(x) => "unknown face culling mode: "@ + decimal(x as nat),
        state::StateQueryError::UnknownVertexRestartState(s) => "unknown vertex restart state: "@ + decimal(
            s as nat,
        ),
        state::StateQueryError::UnknownSRGBFramebufferState(s) => "unknown sRGB framebuffer state: "@ + decimal(
            s as nat,
        ),
    }
}

impl state::StateQueryError {
    /// A human-readable description of the error.
    pub fn message(&self) -> (r: String)
        ensures
            r@ == state_query_error_message(*self),
    {
        match *self {
            state::StateQueryError::UnavailableGLState => "unavailable graphics state".to_owned(),
            state::StateQueryError::UnknownBlendingState(s) => with_decimal("unknown blending state: ", s as u32),
            state::StateQueryError::UnknownBlendingEquation(x) => with_decimal("unknown blending equation: ", x),
            state::StateQueryError::UnknownBlendingSrcFactor(x) => with_decimal("unknown blending source factor: ", x),
            state::StateQueryError::UnknownBlendingDstFactor(x) => with_decimal(
                "unknown blending destination factor: ",
                x,
            ),
            state::StateQueryError::UnknownDepthTestState(s) => with_decimal("unknown depth test state: ", s as u32),
            state::StateQueryError::UnknownFaceCullingState(s) => with_decimal(
                "unknown face culling state: ",
                s as u32,
            ),
            state::StateQueryError::UnknownFaceCullingOrder(x) => with_decimal("unknown face culling order: ", x),
            state::StateQueryError::UnknownFaceCullingMode(x) => with_decimal("unknown face culling mode: ", x),
            state::StateQueryError::UnknownVertexRestartState(s) => with_decimal(
                "unknown vertex restart state: ",
                s as u32,
            ),
            state::StateQueryError::UnknownSRGBFramebufferState(s) => with_decimal(
                "unknown sRGB framebuffer state: ",
                s as u32,
            ),
        }
    }
}

/// `items` joined with `sep` between two consecutive items.
pub open spec fn joined(items: Seq<Seq<char>>, sep: Seq<char>) -> Seq<char>
    decreases items.len(),
{
    if items.len() == 0 {
        Seq::empty()
    } else if items.len() == 1 {
        items[0]
    } else {
        joined(items.drop_last(), sep) + sep + items.last()
    }
}

/// Join strings with a separator.
pub fn join_strings(items: &Vec<String>, sep: &str) -> (r: String)
    ensures
        r@ == joined(items@.map_values(|s: String| s@), sep@),
{
    let mut r = "".to_owned();
    proof {
        reveal_strlit("");
    }
    let ghost views = items@.map_values(|s: String| s@);
    let mut i: usize = 0;
    while i < items.len()
        invariant
            i <= items.len(),
            views == items@.map_values(|s: String| s@),
            r@ == joined(views.take(i as int), sep@),
        decreases items.len() - i,
    {
        if i > 0 {
            r.append(sep);
        }
        r.append(items[i].as_str());
        i = i + 1;
        assert(views.take(i as int).drop_last() =~= views.take(i - 1));
    }
    assert(views.take(items.len() as int) =~= views);
    r
}

/// The message of a WebGL 2 state query error.
pub open spec fn webgl2_state_query_error_message(e: webgl2_state::StateQueryError) -> Seq<char> {
    match e {
        webgl2_state::StateQueryError::UnavailableWebGL2State => "unavailable graphics state"@,
        webgl2_state::StateQueryError::UnknownArrayBufferInitialState => "unknown array buffer initial state"@,
        webgl2_state::StateQueryError::UnknownViewportInitialState => "unknown viewport initial state"@,
        webgl2_state::StateQueryError::UnknownClearColorInitialState => "unknown clear color initial state"@,
        webgl2_state::StateQueryError::UnknownDepthWriteMaskState => "unknown depth write mask state"@,
        webgl2_state::StateQueryError::UnknownBlendingEquation(x) => "unknown blending equation: "@ + decimal(
            x as nat,
        ),
        webgl2_state::StateQueryError::CannotRetrieveBlendingEquationRGB => "cannot retrieve blending equation (RGB)"@,
        webgl2_state::StateQueryError::CannotRetrieveBlendingEquationAlpha => "cannot retrieve blending equation (alpha)"@,
        webgl2_state::StateQueryError::CannotRetrieveBlendingSrcFactorRGB => "cannot retrieve blending source factor (RGB)"@,
        webgl2_state::StateQueryError::CannotRetrieveBlendingSrcFactorAlpha => "cannot retrieve blending source factor (alpha)"@,
        webgl2_state::StateQueryError::CannotRetrieveBlendingDstFactorRGB => "cannot retrieve blending destination factor (RGB)"@,
        webgl2_state::StateQueryError::CannotRetrieveBlendingDstFactorAlpha => "cannot retrieve blending destination factor (alpha)"@,
        webgl2_state::StateQueryError::CannotRetrieveRequiredWebGL2Extensions(v) => "missing WebGL2 extensions: ["@
            + joined(v@.map_values(|s: String| s@), ", "@) + "]"@,
        webgl2_state::StateQueryError::UnknownBlendingSrcFactorRGB(x) => "unknown blending source factor (RGB): "@
            + decimal(x as nat),
        webgl2_state::StateQueryError::UnknownBlendingSrcFactorAlpha(x) => "unknown blending source factor (alpha): "@
            + decimal(x as nat),
        webgl2_state::StateQueryError::UnknownBlendingDstFactorRGB(x) => "unknown blending destination factor (RGB): "@
            + decimal(x as nat),
        webgl2_state::StateQueryError::UnknownBlendingDstFactorAlpha(x) => "unknown blending destination factor (alpha): "@
            + decimal(x as nat),
        webgl2_state::StateQueryError::UnknownFaceCullingOrder => "unknown face culling order"@,
        webgl2_state::StateQueryError::UnknownFaceCullingMode => "unknown face culling mode"@,
        webgl2_state::StateQueryError::UnknownScissorRegionInitialState => "unknown scissor region initial state"@,
    }
}

impl webgl2_state::StateQueryError {
    /// A human-readable description of the error.
    pub fn message(&self) -> (r: String)
        ensures
            r@ == webgl2_state_query_error_message(*self),
    {
        match self {
            webgl2_state::StateQueryError::UnavailableWebGL2State => "unavailable graphics state".to_owned(),
            webgl2_state::StateQueryError::UnknownArrayBufferInitialState => "unknown array buffer initial state".to_owned(),
            webgl2_state::StateQueryError::UnknownViewportInitialState => "unknown viewport initial state".to_owned(),
            webgl2_state::StateQueryError::UnknownClearColorInitialState => "unknown clear color initial state".to_owned(),
            webgl2_state::StateQueryError::UnknownDepthWriteMaskState => "unknown depth write mask state".to_owned(),
            webgl2_state::StateQueryError::UnknownBlendingEquation(x) => with_decimal("unknown blending equation: ", *x),
            webgl2_state::StateQueryError::CannotRetrieveBlendingEquationRGB => "cannot retrieve blending equation (RGB)".to_owned(),
            webgl2_state::StateQueryError::CannotRetrieveBlendingEquationAlpha => "cannot retrieve blending equation (alpha)".to_owned(),
            webgl2_state::StateQueryError::CannotRetrieveBlendingSrcFactorRGB => "cannot retrieve blending source factor (RGB)".to_owned(),
            webgl2_state::StateQueryError::CannotRetrieveBlendingSrcFactorAlpha => "cannot retrieve blending source factor (alpha)".to_owned(),
            webgl2_state::StateQueryError::CannotRetrieveBlendingDstFactorRGB => "cannot retrieve blending destination factor (RGB)".to_owned(),
            webgl2_state::StateQueryError::CannotRetrieveBlendingDstFactorAlpha => "cannot retrieve blending destination factor (alpha)".to_owned(),
            webgl2_state::StateQueryError::CannotRetrieveRequiredWebGL2Extensions(v) => {
                let r = "missing WebGL2 extensions: [".to_owned();
                let list = join_strings(v, ", ");
                let r = r.concat(list.as_str());
                r.concat("]")
            },
            webgl2_state::StateQueryError::UnknownBlendingSrcFactorRGB(x) => with_decimal("unknown blending source factor (RGB): ", *x),
            webgl2_state::StateQueryError::UnknownBlendingSrcFactorAlpha(x) => with_decimal("unknown blending source factor (alpha): ", *x),
            webgl2_state::StateQueryError::UnknownBlendingDstFactorRGB(x) => with_decimal("unknown blending destination factor (RGB): ", *x),
            webgl2_state::StateQueryError::UnknownBlendingDstFactorAlpha(x) => with_decimal("unknown blending destination factor (alpha): ", *x),
            webgl2_state::StateQueryError::UnknownFaceCullingOrder => "unknown face culling order".to_owned(),
            webgl2_state::StateQueryError::UnknownFaceCullingMode => "unknown face culling mode".to_owned(),
            webgl2_state::StateQueryError::UnknownScissorRegionInitialState => "unknown scissor region initial state".to_owned(),
        }
    }
}

/// web-sys errors that might occur while initializing and using the platform.
#[non_exhaustive]
#[derive(Clone, Debug, PartialEq, Eq)]
pub enum WebSysWebGL2SurfaceError {
    CannotGrabWindow,
    CannotGrabDocument,
    NotSuchCanvasElement(String),
    CannotGrabWebGL2Context,
    NoAvailableWebGL2Context,
}

impl WebSysWebGL2SurfaceError {
    /// The window node cannot be grabbed.
    pub fn cannot_grab_window() -> (r: Self)
        ensures
            r == WebSysWebGL2SurfaceError::CannotGrabWindow,
    {
        WebSysWebGL2SurfaceError::CannotGrabWindow
    }

    /// The document node cannot be grabbed.
    pub fn cannot_grab_document() -> (r: Self)
        ensures
            r == WebSysWebGL2SurfaceError::CannotGrabDocument,
    {
        WebSysWebGL2SurfaceError::CannotGrabDocument
    }

    /// No canvas element has the given name.
    pub fn not_such_canvas_element(name: &str) -> (r: Self)
        ensures
            r matches WebSysWebGL2SurfaceError::NotSuchCanvasElement(n) && n@ == name@,
    {
        WebSysWebGL2SurfaceError::NotSuchCanvasElement(name.to_owned())
    }

    /// The WebGL 2 context cannot be grabbed.
    pub fn cannot_grab_webgl2_context() -> (r: Self)
        ensures
            r == WebSysWebGL2SurfaceError::CannotGrabWebGL2Context,
    {
        WebSysWebGL2SurfaceError::CannotGrabWebGL2Context
    }

    /// No WebGL 2 context is available.
    pub fn no_available_webgl2_context() -> (r: Self)
        ensures
            r == WebSysWebGL2SurfaceError::NoAvailableWebGL2Context,
    {
        WebSysWebGL2SurfaceError::NoAvailableWebGL2Context
    }

    /// A human-readable description of the error.
    pub fn message(&self) -> (r: String)
        ensures
            r@ == (match self {
                WebSysWebGL2SurfaceError::CannotGrabWindow => "cannot grab the window node"@,
                WebSysWebGL2SurfaceError::CannotGrabDocument => "cannot grab the document node"@,
                WebSysWebGL2SurfaceError::NotSuchCanvasElement(name) => "cannot grab canvas named "@ + name@,
                WebSysWebGL2SurfaceError::CannotGrabWebGL2Context => "cannot grab WebGL2 context"@,
                WebSysWebGL2SurfaceError::NoAvailableWebGL2Context => "no available WebGL2 context"@,
            }),
    {
        match self {
            WebSysWebGL2SurfaceError::CannotGrabWindow => "cannot grab the window node".to_owned(),
            WebSysWebGL2SurfaceError::CannotGrabDocument => "cannot grab the document node".to_owned(),
            WebSysWebGL2SurfaceError::NotSuchCanvasElement(name) => {
                let r = "cannot grab canvas named ".to_owned();
                r.concat(name.as_str())
            },
            WebSysWebGL2SurfaceError::CannotGrabWebGL2Context => "cannot grab WebGL2 context".to_owned(),
            WebSysWebGL2SurfaceError::NoAvailableWebGL2Context => "no available WebGL2 context".to_owned(),
        }
    }
}

/// Errors of the SDL2 platform. The errors that SDL2 reports are carried as their messages.
#[derive(Clone, Debug, PartialEq, Eq)]
pub enum Sdl2SurfaceError {
    /// Initialization of the surface went wrong.
    InitError(String),
    /// Window creation failed.
    WindowCreationFailed(String),
    /// Failed to create an OpenGL context.
    GlContextInitFailed(String),
    /// No available video mode.
    VideoInitError(String),
    /// The graphics state is not available.
    GraphicsStateError(state::StateQueryError),
}

impl Sdl2SurfaceError {
    /// A human-readable description of the error.
    pub fn message(&self) -> (r: String)
        ensures
            r@ == (match self {
                Sdl2SurfaceError::InitError(e) => "initialization error: "@ + e@,
                Sdl2SurfaceError::WindowCreationFailed(e) => "failed to create window: "@ + e@,
                Sdl2SurfaceError::GlContextInitFailed(e) => "failed to create OpenGL context: "@ + e@,
                Sdl2SurfaceError::VideoInitError(e) => "failed to initialize video system: "@ + e@,
                Sdl2SurfaceError::GraphicsStateError(e) => "failed to get graphics state: "@
                    + state_query_error_message(*e),
            }),
    {
        match self {
            Sdl2SurfaceError::InitError(e) => "initialization error: ".to_owned().concat(e.as_str()),
            Sdl2SurfaceError::WindowCreationFailed(e) => "failed to create window: ".to_owned().concat(e.as_str()),
            Sdl2SurfaceError::GlContextInitFailed(e) => "failed to create OpenGL context: ".to_owned().concat(e.as_str()),
            Sdl2SurfaceError::VideoInitError(e) => "failed to initialize video system: ".to_owned().concat(e.as_str()),
            Sdl2SurfaceError::GraphicsStateError(e) => {
                let m = e.message();
                "failed to get graphics state: ".to_owned().concat(m.as_str())
            },
        }
    }
}

/// Errors of the GLFW platform. The errors that GLFW and the user report are carried as their
/// messages.
#[derive(Clone, Debug, PartialEq, Eq)]
pub enum GlfwSurfaceError {
    /// Initialization of the surface went wrong.
    InitError(String),
    /// User error.
    UserError(String),
    /// The graphics state is not available.
    GraphicsStateError(state::StateQueryError),
}

impl GlfwSurfaceError {
    /// A human-readable description of the error.
    pub fn message(&self) -> (r: String)
        ensures
            r@ == (match self {
                GlfwSurfaceError::InitError(e) => "initialization error: "@ + e@,
                GlfwSurfaceError::UserError(e) => "user error: "@ + e@,
                GlfwSurfaceError::GraphicsStateError(e) => "failed to get graphics state: "@
                    + state_query_error_message(*e),
            }),
    {
        match self {
            GlfwSurfaceError::InitError(e) => "initialization error: ".to_owned().concat(e.as_str()),
            GlfwSurfaceError::UserError(e) => "user error: ".to_owned().concat(e.as_str()),
            GlfwSurfaceError::GraphicsStateError(e) => {
                let m = e.message();
                "failed to get graphics state: ".to_owned().concat(m.as_str())
            },
        }
    }
}

/// Errors of the Glutin platform. The errors that Glutin reports are carried as their messages.
#[derive(Clone, Debug, PartialEq, Eq)]
pub enum GlutinError {
    /// Something went wrong when creating the surface.
    CreationError(String),
    /// OpenGL context error.
    ContextError(String),
    /// Graphics state error that might occur when querying the initial state.
    GraphicsStateError(state::StateQueryError),
}

impl GlutinError {
    /// A human-readable description of the error.
    pub fn message(&self) -> (r: String)
        ensures
            r@ == (match self {
                GlutinError::CreationError(e) => "Glutin surface creation error: "@ + e@,
                GlutinError::ContextError(e) => "Glutin OpenGL context creation error: "@ + e@,
                GlutinError::GraphicsStateError(e) => "OpenGL graphics state initialization error: "@
                    + state_query_error_message(*e),
            }),
    {
        match self {
            GlutinError::CreationError(e) => "Glutin surface creation error: ".to_owned().concat(e.as_str()),
            GlutinError::ContextError(e) => "Glutin OpenGL context creation error: ".to_owned().concat(e.as_str()),
            GlutinError::GraphicsStateError(e) => {
                let m = e.message();
                "OpenGL graphics state initialization error: ".to_owned().concat(m.as_str())
            },
        }
    }
}

/// Errors that can occur when dealing with WebGL 2 buffers.
#[derive(Clone, Copy, Debug, PartialEq, Eq, Structural)]
pub enum BufferError {
    /// Cannot create the buffer on the backend.
    CannotCreate,
}

impl BufferError {
    /// A human-readable description of the error.
    pub fn message(&self) -> (r: String)
        ensures
            r@ == "cannot create buffer on the backend"@,
    {
        "cannot create buffer on the backend".to_owned()
    }
}

/// Errors that can occur when mapping an OpenGL buffer.
#[derive(Clone, Copy, Debug, PartialEq, Eq, Structural)]
pub enum SliceBufferError {
    /// Buffer mapping failed.
    MapFailed,
}

impl SliceBufferError {
    /// A human-readable description of the error.
    pub fn message(&self) -> (r: String)
        ensures
            r@ == "buffer mapping failed"@,
    {
        "buffer mapping failed".to_owned()
    }
}

/// The outcome of mapping a buffer: the mapping succeeds unless the context handed back no memory.
pub fn mapping_buffer(mapped_is_null: bool) -> (r: Result<(), SliceBufferError>)
    ensures
        r == (if mapped_is_null {
            Err::<(), SliceBufferError>(SliceBufferError::MapFailed)
        } else {
            Ok::<(), SliceBufferError>(())
        }),
{
    if mapped_is_null {
        Err(SliceBufferError::MapFailed)
    } else {
        Ok(())
    }
}

} // verus!

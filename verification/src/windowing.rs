//! Windowing types shared by the platform backends.
use vstd::prelude::*;

verus! {

/// Dimension metrics.
#[derive(Clone, Copy, Debug, PartialEq, Eq, Structural)]
pub enum WindowDim {
    /// Windowed mode.
    Windowed {
        /// Width of the window.
        width: u32,
        /// Height of the window.
        height: u32,
    },
    /// Fullscreen mode (using the primary monitor resolution, for instance).
    Fullscreen,
    /// Fullscreen mode with restricted viewport dimension.
    FullscreenRestricted {
        /// Width of the window.
        width: u32,
        /// Height of the window.
        heigth: u32,
    },
}

/// Cursor mode.
#[derive(Clone, Copy, Debug, PartialEq, Eq, Structural)]
pub enum CursorMode {
    /// The cursor is always visible. It is up to the backend to decide what the visual representing
    /// the cursor is.
    Visible,
    /// The cursor exists yet is not shown. It is up to the programmer / user to decide what the
    /// visual representing the cursor is.
    Invisible,
    /// The cursor is disabled. It is not shown and should be considered non-active.
    Disabled,
}

/// Different window options.
///
/// Start with `default()` and tweak the options with the setters.
#[derive(Clone, Copy, Debug, PartialEq, Eq, Structural)]
pub struct WindowOpt {
    /// Dimension of the window.
    pub dim: WindowDim,
    /// Cursor mode.
    pub cursor_mode: CursorMode,
    /// Number of samples for multisampling; `None` means no multisampling.
    pub num_samples: Option<u32>,
}

/// The default window options: a 960×540 window, a visible cursor, no multisampling.
pub open spec fn default_window_opt() -> WindowOpt {
    WindowOpt {
        dim: WindowDim::Windowed { width: 960, height: 540 },
        cursor_mode: CursorMode::Visible,
        num_samples: None,
    }
}

impl Default for WindowOpt {
    /// Defaults: `dim` is `Windowed { width: 960, height: 540 }`, `cursor_mode` is `Visible`,
    /// `num_samples` is `None`.
    fn default() -> (r: Self)
        ensures
            r == default_window_opt(),
    {
        WindowOpt {
            dim: WindowDim::Windowed { width: 960, height: 540 },
            cursor_mode: CursorMode::Visible,
            num_samples: None,
        }
    }
}

impl WindowOpt {
    /// Set the dimension of the window.
    pub fn set_dim(self, dim: WindowDim) -> (r: Self)
        ensures
            r == (WindowOpt { dim, ..self }),
    {
        WindowOpt { dim, ..self }
    }

    /// Get the dimension of the window.
    pub fn dim(&self) -> (r: &WindowDim)
        ensures
            *r == self.dim,
    {
        &self.dim
    }

    /// Hide, unhide or disable the cursor.
    pub fn set_cursor_mode(self, cursor_mode: CursorMode) -> (r: Self)
        ensures
            r == (WindowOpt { cursor_mode, ..self }),
    {
        WindowOpt { cursor_mode, ..self }
    }

    /// Get the cursor mode.
    pub fn cursor_mode(&self) -> (r: &CursorMode)
        ensures
            *r == self.cursor_mode,
    {
        &self.cursor_mode
    }

    /// Set the number of samples to use for multisampling. Pass `None` to disable multisampling.
    /// The number is whatever `samples` converts to; the other options are kept.
    pub fn set_num_samples<S: Into<Option<u32>>>(self, samples: S) -> (r: Self)
        ensures
            call_ensures(S::into, (samples,), r.num_samples),
            r.dim == self.dim,
            r.cursor_mode == self.cursor_mode,
    {
        let num_samples: Option<u32> = samples.into();
        WindowOpt { num_samples, ..self }
    }

    /// Get the number of samples to use in multisampling, if any.
    pub fn num_samples(&self) -> (r: &Option<u32>)
        ensures
            *r == self.num_samples,
    {
        &self.num_samples
    }
}

/// Setting an option and reading it back gives what was set, and leaves the other options as
/// they were.
pub proof fn law_window_opt_set_then_get(opt: WindowOpt, dim: WindowDim, cursor_mode: CursorMode, num_samples: Option<u32>)
    ensures
        (WindowOpt { dim, ..opt }).dim == dim,
        (WindowOpt { dim, ..opt }).cursor_mode == opt.cursor_mode,
        (WindowOpt { dim, ..opt }).num_samples == opt.num_samples,
        (WindowOpt { cursor_mode, ..opt }).cursor_mode == cursor_mode,
        (WindowOpt { cursor_mode, ..opt }).dim == opt.dim,
        (WindowOpt { cursor_mode, ..opt }).num_samples == opt.num_samples,
        (WindowOpt { num_samples, ..opt }).num_samples == num_samples,
        (WindowOpt { num_samples, ..opt }).dim == opt.dim,
        (WindowOpt { num_samples, ..opt }).cursor_mode == opt.cursor_mode,
{
}

/// The size a canvas or window is given for a dimension. Fullscreen mode has no size of its own
/// and is not supported by the canvas platform.
pub fn canvas_size(dim: WindowDim) -> (r: (u32, u32))
    requires
        !(dim is Fullscreen),
    ensures
        match dim {
            WindowDim::Windowed { width, height } => r == (width, height),
            WindowDim::FullscreenRestricted { width, heigth } => r == (width, heigth),
            WindowDim::Fullscreen => false,
        },
{
    match dim {
        WindowDim::Windowed { width, height } => (width, height),
        WindowDim::FullscreenRestricted { width, heigth } => (width, heigth),
        WindowDim::Fullscreen => (0, 0),
    }
}


/// How an SDL2 window is made fullscreen.
#[derive(Clone, Copy, Debug, PartialEq, Eq, Structural)]
pub enum FullscreenKind {
    /// Not fullscreen.
    Windowed,
    /// Fullscreen, switching the video mode.
    Fullscreen,
    /// Fullscreen at the desktop resolution.
    Desktop,
}

/// The profile of an OpenGL context.
#[derive(Clone, Copy, Debug, PartialEq, Eq, Structural)]
pub enum ContextProfile {
    Core,
    Compatibility,
    GLES,
}

/// The SDL2 settings a surface is created with: the OpenGL context to request, multisampling,
/// cursor, window size and mode.
#[derive(Clone, Copy, Debug, PartialEq, Eq, Structural)]
pub struct Sdl2WindowSetup {
    pub profile: ContextProfile,
    pub forward_compatible: bool,
    pub major_version: u8,
    pub minor_version: u8,
    pub multisample_buffers: u8,
    pub multisample_samples: u8,
    pub show_cursor: bool,
    pub relative_mouse_mode: bool,
    pub width: u32,
    pub height: u32,
    pub fullscreen: FullscreenKind,
}

/// The SDL2 settings for window options: a forward-compatible OpenGL 3.3 core context, and the
/// window the options describe.
pub open spec fn sdl2_setup_spec(options: WindowOpt) -> Sdl2WindowSetup {
    let (buffers, samples) = match options.num_samples {
        Some(num) => (1u8, num as u8),
        None => (0u8, 0u8),
    };
    let (show, relative) = match options.cursor_mode {
        CursorMode::Visible => (true, false),
        CursorMode::Invisible => (false, false),
        CursorMode::Disabled => (false, true),
    };
    let (w, h, fs) = match options.dim {
        WindowDim::Windowed { width, height } => (width, height, FullscreenKind::Windowed),
        WindowDim::Fullscreen => (800u32, 600u32, FullscreenKind::Fullscreen),
        WindowDim::FullscreenRestricted { width, heigth } => (width, heigth, FullscreenKind::Desktop),
    };
    Sdl2WindowSetup {
        profile: ContextProfile::Core,
        forward_compatible: true,
        major_version: 3,
        minor_version: 3,
        multisample_buffers: buffers,
        multisample_samples: samples,
        show_cursor: show,
        relative_mouse_mode: relative,
        width: w,
        height: h,
        fullscreen: fs,
    }
}

/// Compute the SDL2 settings for window options.
pub fn sdl2_window_setup(options: WindowOpt) -> (r: Sdl2WindowSetup)
    ensures
        r == sdl2_setup_spec(options),
{
    let (multisample_buffers, multisample_samples) = match options.num_samples {
        Some(num) => (1u8, num as u8),
        None => (0u8, 0u8),
    };
    let (show_cursor, relative_mouse_mode) = match options.cursor_mode {
        CursorMode::Visible => (true, false),
        CursorMode::Invisible => (false, false),
        CursorMode::Disabled => (false, true),
    };
    let (width, height, fullscreen) = match options.dim {
        WindowDim::Windowed { width, height } => (width, height, FullscreenKind::Windowed),
        WindowDim::Fullscreen => (800u32, 600u32, FullscreenKind::Fullscreen),
        WindowDim::FullscreenRestricted { width, heigth } => (width, heigth, FullscreenKind::Desktop),
    };
    Sdl2WindowSetup {
        profile: ContextProfile::Core,
        forward_compatible: true,
        major_version: 3,
        minor_version: 3,
        multisample_buffers,
        multisample_samples,
        show_cursor,
        relative_mouse_mode,
        width,
        height,
        fullscreen,
    }
}

} // verus!

//! Window configuration values: position, size, display mode and the
//! builder that assembles a window's settings.

use vstd::prelude::*;

verus! {

use vstd::string::StringExecFns;

/// A window position in screen coordinates.
#[derive(Debug, Clone, Copy, PartialEq, Eq, Structural)]
pub struct WindowPosition {
    /// Horizontal position.
    pub x: i32,
    /// Vertical position.
    pub y: i32,
}

impl WindowPosition {
    /// The position `(x, y)`.
    pub fn new(x: i32, y: i32) -> (r: WindowPosition)
        ensures
            r.x == x,
            r.y == y,
    {
        WindowPosition { x, y }
    }

    /// The sentinel position asking the platform to center the window.
    pub fn centered() -> (r: WindowPosition)
        ensures
            r.x == i32::MIN,
            r.y == i32::MIN,
    {
        WindowPosition { x: i32::MIN, y: i32::MIN }
    }
}

/// A window size in pixels.
#[derive(Debug, Clone, Copy, PartialEq, Eq, Structural)]
pub struct WindowSize {
    /// Width in pixels.
    pub width: u32,
    /// Height in pixels.
    pub height: u32,
}

impl WindowSize {
    /// The size `width` by `height`.
    pub fn new(width: u32, height: u32) -> (r: WindowSize)
        ensures
            r.width == width,
            r.height == height,
    {
        WindowSize { width, height }
    }
}

/// How a window is displayed.
#[derive(Debug, Clone, Copy, PartialEq, Eq, Structural)]
pub enum DisplayMode {
    /// A normal window with borders and a title bar.
    Windowed,
    /// Exclusive fullscreen, changing the monitor's resolution.
    FullscreenExclusive,
    /// Borderless fullscreen at the desktop resolution.
    FullscreenBorderless,
    /// Maximized but still bordered.
    Maximized,
}

/// A window's settings, assembled with the builder methods.
#[derive(Debug, Clone)]
pub struct WindowConfig {
    /// The title shown in the window's bar.
    pub title: String,
    /// The initial size.
    pub size: WindowSize,
    /// The initial position.
    pub position: WindowPosition,
    /// The initial display mode.
    pub display_mode: DisplayMode,
    /// Whether the user may resize the window.
    pub resizable: bool,
    /// Whether the window has borders and a title bar.
    pub decorated: bool,
    /// Whether the window background may be transparent.
    pub transparent: bool,
    /// Whether presentation waits for vertical sync.
    pub vsync: bool,
    /// The smallest size the user may resize to, if bounded.
    pub min_size: Option<WindowSize>,
    /// The largest size the user may resize to, if bounded.
    pub max_size: Option<WindowSize>,
}

impl Default for WindowConfig {
    /// A 1280 by 720 resizable, decorated, synchronized window titled
    /// `Avila Window`, centered, in windowed mode, with no size bounds.
    fn default() -> (r: WindowConfig)
        ensures
            r.title@ == "Avila Window"@,
            r.size == (WindowSize { width: 1280, height: 720 }),
            r.position == (WindowPosition { x: i32::MIN, y: i32::MIN }),
            r.display_mode is Windowed,
            r.resizable == true,
            r.decorated == true,
            r.transparent == false,
            r.vsync == true,
            r.min_size == None::<WindowSize>,
            r.max_size == None::<WindowSize>,
    {
        WindowConfig {
            title: String::from_str("Avila Window"),
            size: WindowSize::new(1280, 720),
            position: WindowPosition::centered(),
            display_mode: DisplayMode::Windowed,
            resizable: true,
            decorated: true,
            transparent: false,
            vsync: true,
            min_size: None,
            max_size: None,
        }
    }
}

impl WindowConfig {
    /// The default settings under the given title.
    pub fn new(title: &str) -> (r: WindowConfig)
        ensures
            r.title@ == title@,
            r.size == (WindowSize { width: 1280, height: 720 }),
            r.position == (WindowPosition { x: i32::MIN, y: i32::MIN }),
            r.display_mode is Windowed,
            r.resizable == true,
            r.decorated == true,
            r.transparent == false,
            r.vsync == true,
            r.min_size == None::<WindowSize>,
            r.max_size == None::<WindowSize>,
    {
        WindowConfig {
            title: title.to_owned(),
            size: WindowSize::new(1280, 720),
            position: WindowPosition::centered(),
            display_mode: DisplayMode::Windowed,
            resizable: true,
            decorated: true,
            transparent: false,
            vsync: true,
            min_size: None,
            max_size: None,
        }
    }

    /// The same settings at the given size.
    pub fn with_size(self, width: u32, height: u32) -> (r: WindowConfig)
        ensures
            r == (WindowConfig { size: WindowSize { width, height }, ..self }),
    {
        WindowConfig { size: WindowSize::new(width, height), ..self }
    }

    /// The same settings at the given position.
    pub fn with_position(self, x: i32, y: i32) -> (r: WindowConfig)
        ensures
            r == (WindowConfig { position: WindowPosition { x, y }, ..self }),
    {
        WindowConfig { position: WindowPosition::new(x, y), ..self }
    }

    /// The same settings in the given display mode.
    pub fn with_display_mode(self, mode: DisplayMode) -> (r: WindowConfig)
        ensures
            r == (WindowConfig { display_mode: mode, ..self }),
    {
        WindowConfig { display_mode: mode, ..self }
    }

    /// The same settings with resizing allowed or refused.
    pub fn resizable(self, resizable: bool) -> (r: WindowConfig)
        ensures
            r == (WindowConfig { resizable, ..self }),
    {
        WindowConfig { resizable, ..self }
    }

    /// The same settings with borders switched on or off.
    pub fn decorated(self, decorated: bool) -> (r: WindowConfig)
        ensures
            r == (WindowConfig { decorated, ..self }),
    {
        WindowConfig { decorated, ..self }
    }

    /// The same settings with background transparency switched on or off.
    pub fn transparent(self, transparent: bool) -> (r: WindowConfig)
        ensures
            r == (WindowConfig { transparent, ..self }),
    {
        WindowConfig { transparent, ..self }
    }

    /// The same settings with vertical sync switched on or off.
    pub fn vsync(self, vsync: bool) -> (r: WindowConfig)
        ensures
            r == (WindowConfig { vsync, ..self }),
    {
        WindowConfig { vsync, ..self }
    }
}

/// Why a window operation failed.
#[derive(Debug, Clone, PartialEq, Eq)]
pub enum WindowError {
    /// The platform refused to create the window.
    CreationFailed(String),
    /// The requested size is outside the allowed bounds.
    InvalidSize,
    /// The requested position cannot be used.
    InvalidPosition,
    /// The platform does not support the requested display mode.
    DisplayModeNotSupported,
    /// The named monitor does not exist.
    MonitorNotFound,
    /// Any other platform failure.
    PlatformError(String),
}

impl WindowError {
    /// A short description of the failure.
    pub fn describe(&self) -> (r: &'static str)
        ensures
            r@ == match self {
                WindowError::CreationFailed(_) => "window creation failed"@,
                WindowError::InvalidSize => "invalid window size"@,
                WindowError::InvalidPosition => "invalid window position"@,
                WindowError::DisplayModeNotSupported => "display mode not supported"@,
                WindowError::MonitorNotFound => "monitor not found"@,
                WindowError::PlatformError(_) => "platform error"@,
            },
    {
        match self {
            WindowError::CreationFailed(_) => "window creation failed",
            WindowError::InvalidSize => "invalid window size",
            WindowError::InvalidPosition => "invalid window position",
            WindowError::DisplayModeNotSupported => "display mode not supported",
            WindowError::MonitorNotFound => "monitor not found",
            WindowError::PlatformError(_) => "platform error",
        }
    }
}

} // verus!

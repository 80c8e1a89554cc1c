//! Window configuration flags and the window/cursor state kept by the engine
//! core.
//!
//! The platform backend performs the matching system calls; the functions here
//! are the state-tracking half of each operation, with a contract for how the
//! bookkeeping changes.

use vstd::prelude::*;

verus! {

/// A position on screen, in pixels.
#[derive(Debug, Clone, Copy, PartialEq, Eq, Hash, Structural)]
pub struct Point {
    pub x: i32,
    pub y: i32,
}

/// A width and height, in pixels.
#[derive(Debug, Clone, Copy, PartialEq, Eq, Structural)]
pub struct Size {
    pub width: u32,
    pub height: u32,
}

/// System/Window configuration flags (bit based).
#[derive(Debug, Clone, Copy, PartialEq, Eq, Hash, Structural)]
pub struct ConfigFlags(pub u32);

impl ConfigFlags {
    /// Set to try enabling V-Sync on GPU
    pub const VSYNC_HINT: u32 = 0x00000040;
    /// Set to run program in fullscreen
    pub const FULLSCREEN_MODE: u32 = 0x00000002;
    /// Set to allow resizable window
    pub const WINDOW_RESIZABLE: u32 = 0x00000004;
    /// Set to disable window decoration (frame and buttons)
    pub const WINDOW_UNDECORATED: u32 = 0x00000008;
    /// Set to hide window
    pub const WINDOW_HIDDEN: u32 = 0x00000080;
    /// Set to minimize window (iconify)
    pub const WINDOW_MINIMIZED: u32 = 0x00000200;
    /// Set to maximize window (expanded to monitor)
    pub const WINDOW_MAXIMIZED: u32 = 0x00000400;
    /// Set to window non focused
    pub const WINDOW_UNFOCUSED: u32 = 0x00000800;
    /// Set to window always on top
    pub const WINDOW_TOPMOST: u32 = 0x00001000;
    /// Set to allow windows running while minimized
    pub const WINDOW_ALWAYS_RUN: u32 = 0x00000100;
    /// Set to allow transparent framebuffer
    pub const WINDOW_TRANSPARENT: u32 = 0x00000010;
    /// Set to support HighDPI
    pub const WINDOW_HIGHDPI: u32 = 0x00002000;
    /// Set to support mouse passthrough, only supported when WindowUndecorated
    pub const WINDOW_MOUSE_PASSTHROUGH: u32 = 0x00004000;
    /// Set to run program in borderless windowed mode
    pub const BORDERLESS_WINDOWED_MODE: u32 = 0x00008000;
    /// Set to try enabling MSAA 4X
    pub const MSAA_4X_HINT: u32 = 0x00000020;
    /// Set to try enabling interlaced video format (for V3D)
    pub const INTERLACED_HINT: u32 = 0x00010000;

    /// True when any of the given bits is set.
    pub open spec fn has_spec(self, flags: Self) -> bool {
        (self.0 & flags.0) != 0
    }

    /// True when any of the given bits is set.
    #[verifier::when_used_as_spec(has_spec)]
    pub fn has(self, flags: Self) -> (r: bool)
        ensures
            r == ((self.0 & flags.0) != 0),
    {
        self.0 & flags.0 != 0
    }

    /// True when all of the given bits are set.
    pub fn contains(self, flags: Self) -> (r: bool)
        ensures
            r == ((self.0 & flags.0) == flags.0),
    {
        self.0 & flags.0 == flags.0
    }

    /// The given bits added to these flags.
    pub fn union(self, flags: Self) -> (r: Self)
        ensures
            r.0 == (self.0 | flags.0),
    {
        Self(self.0 | flags.0)
    }

    /// The bits set in both operands.
    pub fn intersect(self, flags: Self) -> (r: Self)
        ensures
            r.0 == (self.0 & flags.0),
    {
        Self(self.0 & flags.0)
    }

    /// These flags with the given bits removed.
    pub fn without(self, flags: Self) -> (r: Self)
        ensures
            r.0 == (self.0 & !flags.0),
    {
        Self(self.0 & !flags.0)
    }

    /// These flags with the given bits flipped.
    pub fn toggle(self, flags: Self) -> (r: Self)
        ensures
            r.0 == (self.0 ^ flags.0),
    {
        Self(self.0 ^ flags.0)
    }

    /// The given bits added when `value` is true, removed otherwise.
    pub fn set(self, flags: Self, value: bool) -> (r: Self)
        ensures
            value ==> r.0 == (self.0 | flags.0),
            !value ==> r.0 == (self.0 & !flags.0),
    {
        if value {
            self.union(flags)
        } else {
            self.without(flags)
        }
    }
}

impl Default for Point {
    /// The origin.
    fn default() -> (p: Self)
        ensures
            p == (Point { x: 0, y: 0 }),
    {
        Self { x: 0, y: 0 }
    }
}

impl Default for Size {
    /// Zero width and height.
    fn default() -> (s: Self)
        ensures
            s == (Size { width: 0, height: 0 }),
    {
        Self { width: 0, height: 0 }
    }
}

impl Default for ConfigFlags {
    /// No flags set.
    fn default() -> (f: Self)
        ensures
            f.0 == 0,
    {
        Self(0)
    }
}

/// Base path for data storage.
#[derive(Debug, Clone, PartialEq, Eq)]
pub struct Storage {
    /// Base path for data storage
    pub base_path: Option<String>,
}

impl Storage {
    /// Storage with no base path configured yet.
    pub fn new() -> (s: Self)
        ensures
            s.base_path is None,
    {
        Self { base_path: None }
    }
}

impl Default for Storage {
    /// Same as [`Storage::new`]: no base path.
    fn default() -> (s: Self)
        ensures
            s.base_path is None,
    {
        Self::new()
    }
}

/// Window bookkeeping: configuration flags, lifecycle bits and geometry.
#[derive(Debug, Clone, PartialEq, Eq)]
pub struct Window {
    /// Window text title
    pub title: String,
    /// Configuration flags (bit based), keeps window state
    pub flags: ConfigFlags,
    /// Check if window has been initialized successfully
    pub ready: bool,
    /// Check if fullscreen mode is enabled
    pub fullscreen: bool,
    /// Check if window set for closing
    pub should_close: bool,
    /// Check if window has been resized last frame
    pub resized_last_frame: bool,
    /// Wait for events before ending frame
    pub event_waiting: bool,
    /// Using FBO (RenderTexture) for rendering instead of default framebuffer
    pub using_fbo: bool,
    /// Window position (required on fullscreen toggle)
    pub position: Point,
    /// Window previous position (required on borderless windowed toggle)
    pub previous_position: Point,
    /// Display width and height (monitor, device-screen, LCD, ...)
    pub display: Size,
    /// Screen width and height (used render area)
    pub screen: Size,
    /// Screen previous width and height (required on borderless windowed toggle)
    pub previous_screen: Size,
    /// Current render width and height (depends on active fbo)
    pub current_fbo: Size,
    /// Framebuffer width and height (render area, including black bars if required)
    pub render: Size,
    /// Offset from render area (must be divided by 2)
    pub render_offset: Point,
    /// Screen minimum width and height (for resizable window)
    pub screen_min: Size,
    /// Screen maximum width and height (for resizable window)
    pub screen_max: Size,
}

impl Window {
    /// A window that has not been initialized: everything zeroed and cleared.
    pub fn new() -> (w: Self)
        ensures
            w.flags.0 == 0,
            !w.ready && !w.fullscreen && !w.should_close,
            !w.resized_last_frame && !w.event_waiting && !w.using_fbo,
            w.title@ == Seq::<char>::empty(),
            w.screen == (Size { width: 0, height: 0 }),
    {
        Self {
            title: String::new(),
            flags: ConfigFlags(0),
            ready: false,
            fullscreen: false,
            should_close: false,
            resized_last_frame: false,
            event_waiting: false,
            using_fbo: false,
            position: Point { x: 0, y: 0 },
            previous_position: Point { x: 0, y: 0 },
            display: Size { width: 0, height: 0 },
            screen: Size { width: 0, height: 0 },
            previous_screen: Size { width: 0, height: 0 },
            current_fbo: Size { width: 0, height: 0 },
            render: Size { width: 0, height: 0 },
            render_offset: Point { x: 0, y: 0 },
            screen_min: Size { width: 0, height: 0 },
            screen_max: Size { width: 0, height: 0 },
        }
    }

    /// Prepares the window for platform initialization: the requested screen
    /// size and title are recorded, and event waiting starts disabled.
    pub fn configure(&mut self, width: u32, height: u32, title: &str)
        ensures
            *final(self) == (Window {
                title: final(self).title,
                screen: Size { width, height },
                event_waiting: false,
                ..*old(self)
            }),
            final(self).title@ == title@,
    {
        self.screen = Size { width, height };
        self.event_waiting = false;
        self.title = String::from_str(title);
    }

    /// Records a successful platform initialization: the monitor's display
    /// mode, the render area (initially the whole screen) and the ready bit.
    pub fn mark_ready(&mut self, display: Size)
        ensures
            *final(self) == (Window {
                ready: true,
                display,
                render: old(self).screen,
                current_fbo: old(self).screen,
                ..*old(self)
            }),
    {
        self.ready = true;
        self.display = display;
        self.render = self.screen;
        self.current_fbo = self.render;
    }
}

impl Default for Window {
    /// Same as [`Window::new`]: an uninitialized window.
    fn default() -> (w: Self)
        ensures
            w.flags.0 == 0,
            !w.ready && !w.fullscreen && !w.should_close,
    {
        Self::new()
    }
}

/// Check if application should close: a window that is not ready reports
/// that it should close, and a ready one exactly when a close has been
/// requested.
pub fn window_should_close(window: &Window) -> (r: bool)
    ensures
        r == (!window.ready || window.should_close),
{
    !window.ready || window.should_close
}

/// Set window state: maximized.
/// The platform backend expands the window; this records the flag.
pub fn maximize_window(window: &mut Window)
    ensures
        *final(window) == (Window {
            flags: ConfigFlags(old(window).flags.0 | ConfigFlags::WINDOW_MAXIMIZED),
            ..*old(window)
        }),
{
    window.flags = window.flags.union(ConfigFlags(ConfigFlags::WINDOW_MAXIMIZED));
}

/// Set window state: minimized.
/// The platform backend iconifies the window; this records the flag.
pub fn minimize_window(window: &mut Window)
    ensures
        *final(window) == (Window {
            flags: ConfigFlags(old(window).flags.0 | ConfigFlags::WINDOW_MINIMIZED),
            ..*old(window)
        }),
{
    window.flags = window.flags.union(ConfigFlags(ConfigFlags::WINDOW_MINIMIZED));
}

/// Set window state: not minimized/maximized.
pub fn restore_window(window: &mut Window)
    ensures
        *final(window) == (Window {
            flags: ConfigFlags(
                old(window).flags.0 & !(ConfigFlags::WINDOW_MAXIMIZED
                    | ConfigFlags::WINDOW_MINIMIZED),
            ),
            ..*old(window)
        }),
{
    window.flags = window
        .flags
        .without(ConfigFlags(ConfigFlags::WINDOW_MAXIMIZED).union(ConfigFlags(ConfigFlags::WINDOW_MINIMIZED)));
}

/// Set window configuration state using flags: every given bit is added.
pub fn set_window_state(window: &mut Window, flags: ConfigFlags)
    ensures
        *final(window) == (Window {
            flags: ConfigFlags(old(window).flags.0 | flags.0),
            ..*old(window)
        }),
{
    window.flags = window.flags.union(flags);
}

/// Clear window configuration state flags: every given bit is removed.
pub fn clear_window_state(window: &mut Window, flags: ConfigFlags)
    ensures
        *final(window) == (Window {
            flags: ConfigFlags(old(window).flags.0 & !flags.0),
            ..*old(window)
        }),
{
    window.flags = window.flags.without(flags);
}

/// Toggle window state: fullscreen/windowed.
/// The fullscreen flag and the fullscreen bit are flipped together.
pub fn toggle_fullscreen(window: &mut Window)
    ensures
        final(window).fullscreen == !old(window).flags.has_spec(ConfigFlags(ConfigFlags::FULLSCREEN_MODE)),
        *final(window) == (Window {
            flags: ConfigFlags(
                if old(window).flags.has_spec(ConfigFlags(ConfigFlags::FULLSCREEN_MODE)) {
                    old(window).flags.0 & !ConfigFlags::FULLSCREEN_MODE
                } else {
                    old(window).flags.0 | ConfigFlags::FULLSCREEN_MODE
                },
            ),
            fullscreen: !old(window).flags.has_spec(ConfigFlags(ConfigFlags::FULLSCREEN_MODE)),
            ..*old(window)
        }),
{
    let new_value = !window.flags.has(ConfigFlags(ConfigFlags::FULLSCREEN_MODE));
    window.flags = window.flags.set(ConfigFlags(ConfigFlags::FULLSCREEN_MODE), new_value);
    window.fullscreen = new_value;
}

/// Toggle window state: borderless windowed.
/// The fullscreen flag follows the borderless bit, as the backend drives both.
pub fn toggle_borderless_windowed(window: &mut Window)
    ensures
        *final(window) == (Window {
            flags: ConfigFlags(
                if old(window).flags.has_spec(ConfigFlags(ConfigFlags::BORDERLESS_WINDOWED_MODE)) {
                    old(window).flags.0 & !ConfigFlags::BORDERLESS_WINDOWED_MODE
                } else {
                    old(window).flags.0 | ConfigFlags::BORDERLESS_WINDOWED_MODE
                },
            ),
            fullscreen: !old(window).flags.has_spec(ConfigFlags(ConfigFlags::BORDERLESS_WINDOWED_MODE)),
            ..*old(window)
        }),
{
    let new_value = !window.flags.has(ConfigFlags(ConfigFlags::BORDERLESS_WINDOWED_MODE));
    window.flags = window.flags.set(ConfigFlags(ConfigFlags::BORDERLESS_WINDOWED_MODE), new_value);
    window.fullscreen = new_value;
}

/// Set title for window.
pub fn set_window_title(window: &mut Window, title: &str)
    ensures
        *final(window) == (Window { title: final(window).title, ..*old(window) }),
        final(window).title@ == title@,
{
    window.title = String::from_str(title);
}

/// Set window position on screen.
pub fn set_window_position(window: &mut Window, x: u32, y: u32)
    requires
        x <= i32::MAX,
        y <= i32::MAX,
    ensures
        *final(window) == (Window {
            position: Point { x: x as i32, y: y as i32 },
            ..*old(window)
        }),
{
    window.position = Point { x: x as i32, y: y as i32 };
}

/// Set window minimum dimensions (for resizable windows).
pub fn set_window_min_size(window: &mut Window, width: u32, height: u32)
    ensures
        *final(window) == (Window { screen_min: Size { width, height }, ..*old(window) }),
{
    window.screen_min = Size { width, height };
}

/// Set window maximum dimensions (for resizable windows).
pub fn set_window_max_size(window: &mut Window, width: u32, height: u32)
    ensures
        *final(window) == (Window { screen_max: Size { width, height }, ..*old(window) }),
{
    window.screen_max = Size { width, height };
}

/// Set window dimensions.
pub fn set_window_size(window: &mut Window, width: u32, height: u32)
    ensures
        *final(window) == (Window { screen: Size { width, height }, ..*old(window) }),
{
    window.screen = Size { width, height };
}

/// Set window focused: the unfocused bit is cleared.
pub fn set_window_focused(window: &mut Window)
    ensures
        *final(window) == (Window {
            flags: ConfigFlags(old(window).flags.0 & !ConfigFlags::WINDOW_UNFOCUSED),
            ..*old(window)
        }),
{
    window.flags = window.flags.without(ConfigFlags(ConfigFlags::WINDOW_UNFOCUSED));
}

/// Cursor bookkeeping: visibility and whether the cursor is captured
/// (locked to the window for relative motion).
#[derive(Debug, Clone, Copy, PartialEq, Eq, Structural)]
pub struct Cursor {
    /// Track if cursor is hidden
    pub hidden: bool,
    /// Track if cursor is locked to the window (relative mouse mode)
    pub locked: bool,
}

impl Cursor {
    /// A visible, unlocked cursor.
    pub fn new() -> (c: Self)
        ensures
            c == (Cursor { hidden: false, locked: false }),
    {
        Self { hidden: false, locked: false }
    }
}

impl Default for Cursor {
    /// Same as [`Cursor::new`]: visible and unlocked.
    fn default() -> (c: Self)
        ensures
            c == (Cursor { hidden: false, locked: false }),
    {
        Self::new()
    }
}

/// Shows cursor.
pub fn show_cursor(cursor: &mut Cursor)
    ensures
        *final(cursor) == (Cursor { hidden: false, ..*old(cursor) }),
{
    cursor.hidden = false;
}

/// Hides cursor.
pub fn hide_cursor(cursor: &mut Cursor)
    ensures
        *final(cursor) == (Cursor { hidden: true, ..*old(cursor) }),
{
    cursor.hidden = true;
}

/// Enables cursor (unlock cursor): visible and free to leave the window.
pub fn enable_cursor(cursor: &mut Cursor)
    ensures
        *final(cursor) == (Cursor { hidden: false, locked: false }),
{
    cursor.hidden = false;
    cursor.locked = false;
}

/// Disables cursor (lock cursor): hidden and captured for relative motion.
pub fn disable_cursor(cursor: &mut Cursor)
    ensures
        *final(cursor) == (Cursor { hidden: true, locked: true }),
{
    cursor.hidden = true;
    cursor.locked = true;
}

/// Clipboard bookkeeping: the text most recently handed to the system
/// clipboard. The platform backend copies the same text to the system;
/// what was set is what is read back.
#[derive(Debug, Clone, PartialEq, Eq)]
pub struct Clipboard {
    /// Clipboard text content
    pub text: String,
}

impl Clipboard {
    /// An empty clipboard.
    pub fn new() -> (c: Self)
        ensures
            c.text@ == Seq::<char>::empty(),
    {
        Self { text: String::new() }
    }
}

impl Default for Clipboard {
    /// Same as [`Clipboard::new`]: empty.
    fn default() -> (c: Self)
        ensures
            c.text@ == Seq::<char>::empty(),
    {
        Self::new()
    }
}

/// Set clipboard text content.
pub fn set_clipboard_text(clipboard: &mut Clipboard, text: &str)
    ensures
        final(clipboard).text@ == text@,
{
    clipboard.text = String::from_str(text);
}

/// Get clipboard text content: exactly what was last set.
pub fn get_clipboard_text(clipboard: &Clipboard) -> (r: String)
    ensures
        r@ == clipboard.text@,
{
    clipboard.text.clone()
}

/// Monitor bookkeeping: what the platform backend reported about the
/// connected monitors.
#[derive(Debug, Clone, Copy, PartialEq, Eq, Structural)]
pub struct Monitors {
    /// Number of connected monitors
    pub count: usize,
}

impl Monitors {
    /// No monitors reported yet.
    pub fn new() -> (m: Self)
        ensures
            m.count == 0,
    {
        Self { count: 0 }
    }

    /// Records the number of monitors the platform reported.
    pub fn record(&mut self, count: usize)
        ensures
            *final(self) == (Monitors { count }),
    {
        self.count = count;
    }
}

/// Get number of connected monitors, as the platform last reported it.
pub fn get_monitor_count(monitors: &Monitors) -> (r: usize)
    ensures
        r == monitors.count,
{
    monitors.count
}

} // verus!

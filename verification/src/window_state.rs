//! The plain data that describes a window: what the application asks for
//! and what the platform last reported.

use vstd::prelude::*;
use crate::scalar::FloatBits;

verus! {

/// Shape of the mouse pointer while it is over the window.
#[derive(Clone, Copy, Debug, PartialEq, Eq, Structural)]
pub enum MouseCursor {
    Default,
    Crosshair,
    Hand,
    Arrow,
    Move,
    Text,
    Wait,
    Help,
    Progress,
    NotAllowed,
    ContextMenu,
    Cell,
    VerticalText,
    Alias,
    Copy,
    NoDrop,
    Grab,
    Grabbing,
    AllScroll,
    ZoomIn,
    ZoomOut,
    EResize,
    NResize,
    NeResize,
    NwResize,
    SResize,
    SeResize,
    SwResize,
    WResize,
    EwResize,
    NsResize,
    NeswResize,
    NwseResize,
    ColResize,
    RowResize,
}

impl Default for MouseCursor {
    fn default() -> (r: Self)
        ensures
            r == MouseCursor::Default,
    {
        MouseCursor::Default
    }
}

/// Where the top left corner of the window sits on the screen.
#[derive(Clone, Copy, Debug, PartialEq, Eq, Structural)]
pub struct WindowPosition {
    pub x: u32,
    pub y: u32,
}

/// Extent of the window, with the bounds the user may resize it within.
#[derive(Clone, Copy, Debug, PartialEq, Eq)]
pub struct WindowSize {
    /// Width of the content area.
    pub width: u32,
    /// Height of the content area.
    pub height: u32,
    /// Ratio of device pixels to layout units.
    pub hidpi_factor: FloatBits,
    /// Smallest width and height the window may take, if bounded.
    pub min_dimensions: Option<(u32, u32)>,
    /// Largest width and height the window may take, if bounded.
    pub max_dimensions: Option<(u32, u32)>,
}

/// Width of a window for which no size was asked.
pub const DEFAULT_WIDTH: u32 = 800;

/// Height of a window for which no size was asked.
pub const DEFAULT_HEIGHT: u32 = 600;

impl WindowSize {
    /// Size of a window for which none was asked.
    pub open spec fn spec_default() -> WindowSize {
        WindowSize {
            width: DEFAULT_WIDTH,
            height: DEFAULT_HEIGHT,
            hidpi_factor: FloatBits { bits: crate::scalar::ONE_BITS },
            min_dimensions: None,
            max_dimensions: None,
        }
    }
}

impl Default for WindowSize {
    fn default() -> (r: Self)
        ensures
            r == WindowSize::spec_default(),
    {
        WindowSize {
            width: DEFAULT_WIDTH,
            height: DEFAULT_HEIGHT,
            hidpi_factor: FloatBits::one(),
            min_dimensions: None,
            max_dimensions: None,
        }
    }
}

/// Snapshot of the mouse: pointer shape, position, buttons and scroll.
#[derive(Clone, Copy, Debug, PartialEq, Eq)]
pub struct MouseState {
    /// Pointer shape shown over the window.
    pub mouse_cursor_type: MouseCursor,
    /// Pointer position inside the window; `None` while it is outside.
    pub cursor_pos: Option<(i32, i32)>,
    pub left_down: bool,
    pub right_down: bool,
    pub middle_down: bool,
    /// Horizontal scroll distance gathered for the current frame.
    pub scroll_x: FloatBits,
    /// Vertical scroll distance gathered for the current frame.
    pub scroll_y: FloatBits,
}

impl MouseState {
    /// The mouse at rest outside the window.
    pub open spec fn spec_default() -> MouseState {
        MouseState {
            mouse_cursor_type: MouseCursor::Default,
            cursor_pos: None,
            left_down: false,
            right_down: false,
            middle_down: false,
            scroll_x: FloatBits { bits: crate::scalar::ZERO_BITS },
            scroll_y: FloatBits { bits: crate::scalar::ZERO_BITS },
        }
    }
}

impl Default for MouseState {
    fn default() -> (r: Self)
        ensures
            r == MouseState::spec_default(),
    {
        MouseState {
            mouse_cursor_type: MouseCursor::Default,
            cursor_pos: None,
            left_down: false,
            right_down: false,
            middle_down: false,
            scroll_x: FloatBits::zero(),
            scroll_y: FloatBits::zero(),
        }
    }
}

/// Snapshot of the keyboard: which keys are held during the frame.
#[derive(Debug, PartialEq, Eq)]
pub struct KeyboardState {
    /// Codes of the modifier keys that are held.
    pub modifiers: Vec<u32>,
    /// Keys held together with a modifier, in lower case.
    pub hidden_keys: Vec<char>,
    /// Keys that produced text input.
    pub keys: Vec<char>,
}

/// Mathematical content of a [`KeyboardState`].
pub struct KeyboardStateView {
    pub modifiers: Seq<u32>,
    pub hidden_keys: Seq<char>,
    pub keys: Seq<char>,
}

impl View for KeyboardState {
    type V = KeyboardStateView;

    open spec fn view(&self) -> KeyboardStateView {
        KeyboardStateView {
            modifiers: self.modifiers@,
            hidden_keys: self.hidden_keys@,
            keys: self.keys@,
        }
    }
}

impl Clone for KeyboardState {
    fn clone(&self) -> (r: Self)
        ensures
            r@ == self@,
    {
        KeyboardState {
            modifiers: self.modifiers.clone(),
            hidden_keys: self.hidden_keys.clone(),
            keys: self.keys.clone(),
        }
    }
}

impl KeyboardState {
    /// Content of a keyboard on which no key is held.
    pub open spec fn spec_default_view() -> KeyboardStateView {
        KeyboardStateView { modifiers: Seq::empty(), hidden_keys: Seq::empty(), keys: Seq::empty() }
    }
}

impl Default for KeyboardState {
    fn default() -> (r: Self)
        ensures
            r@ == KeyboardState::spec_default_view(),
    {
        let r = KeyboardState { modifiers: Vec::new(), hidden_keys: Vec::new(), keys: Vec::new() };
        proof {
            assert(r@.modifiers =~= Seq::empty());
            assert(r@.hidden_keys =~= Seq::empty());
            assert(r@.keys =~= Seq::empty());
        }
        r
    }
}

/// Everything the application can ask of a window for the next frame, or
/// that is known of the live window after the last one.
#[derive(Debug, PartialEq, Eq)]
pub struct WindowState {
    pub title: String,
    pub size: WindowSize,
    pub position: Option<WindowPosition>,
    pub is_maximized: bool,
    pub is_fullscreen: bool,
    pub has_decorations: bool,
    pub is_visible: bool,
    pub is_transparent: bool,
    pub mouse_state: MouseState,
    pub keyboard_state: KeyboardState,
}

/// Mathematical content of a [`WindowState`].
pub struct WindowStateView {
    pub title: Seq<char>,
    pub size: WindowSize,
    pub position: Option<WindowPosition>,
    pub is_maximized: bool,
    pub is_fullscreen: bool,
    pub has_decorations: bool,
    pub is_visible: bool,
    pub is_transparent: bool,
    pub mouse_state: MouseState,
    pub keyboard_state: KeyboardStateView,
}

impl View for WindowState {
    type V = WindowStateView;

    open spec fn view(&self) -> WindowStateView {
        WindowStateView {
            title: self.title@,
            size: self.size,
            position: self.position,
            is_maximized: self.is_maximized,
            is_fullscreen: self.is_fullscreen,
            has_decorations: self.has_decorations,
            is_visible: self.is_visible,
            is_transparent: self.is_transparent,
            mouse_state: self.mouse_state,
            keyboard_state: self.keyboard_state@,
        }
    }
}

impl Clone for WindowState {
    fn clone(&self) -> (r: Self)
        ensures
            r@ == self@,
    {
        WindowState {
            title: self.title.clone(),
            size: self.size,
            position: self.position,
            is_maximized: self.is_maximized,
            is_fullscreen: self.is_fullscreen,
            has_decorations: self.has_decorations,
            is_visible: self.is_visible,
            is_transparent: self.is_transparent,
            mouse_state: self.mouse_state,
            keyboard_state: self.keyboard_state.clone(),
        }
    }
}

/// Title of a window for which none was asked.
pub open spec fn default_title() -> Seq<char> {
    "Azul App"@
}

impl WindowState {
    /// Content of the state of a window for which nothing was asked.
    pub open spec fn spec_default_view() -> WindowStateView {
        WindowStateView {
            title: default_title(),
            size: WindowSize::spec_default(),
            position: None,
            is_maximized: false,
            is_fullscreen: false,
            has_decorations: true,
            is_visible: true,
            is_transparent: false,
            mouse_state: MouseState::spec_default(),
            keyboard_state: KeyboardState::spec_default_view(),
        }
    }
}

impl Default for WindowState {
    fn default() -> (r: Self)
        ensures
            r@ == WindowState::spec_default_view(),
    {
        WindowState {
            title: "Azul App".to_owned(),
            size: WindowSize::default(),
            position: None,
            is_maximized: false,
            is_fullscreen: false,
            has_decorations: true,
            is_visible: true,
            is_transparent: false,
            mouse_state: MouseState::default(),
            keyboard_state: KeyboardState::default(),
        }
    }
}

} // verus!

//! What the application chooses when it opens a window.

use vstd::prelude::*;
use std::time::Duration;
use crate::scalar::{ColorF, FloatBits, ONE_BITS};
use crate::window_state::WindowState;

verus! {

/// Which renderer backend a window is given.
///
/// `Default` tries the hardware renderer and falls back to the software
/// renderer. The other two force one backend; a window that cannot get the
/// forced backend does not open.
#[derive(Clone, Copy, Debug, PartialEq, Eq, Structural)]
pub enum RendererType {
    Default,
    Hardware,
    Software,
}

impl Default for RendererType {
    fn default() -> (r: Self)
        ensures
            r == RendererType::Default,
    {
        RendererType::Default
    }
}

/// Whether the window is redrawn while the pointer is elsewhere.
#[derive(Clone, Copy, Debug, PartialEq, Eq, Structural)]
pub enum UpdateBehaviour {
    /// Redraw only while the pointer is over the window.
    UpdateOnHover,
    /// Redraw wherever the pointer is.
    UpdateAlways,
}

impl Default for UpdateBehaviour {
    fn default() -> (r: Self)
        ensures
            r == UpdateBehaviour::UpdateOnHover,
    {
        UpdateBehaviour::UpdateOnHover
    }
}

/// How often the screen is redrawn.
#[derive(Clone, Copy, Debug, PartialEq, Eq)]
pub enum UpdateMode {
    /// Redraw only when the interface changed.
    Retained,
    /// Redraw once per given interval.
    FixedUpdate(Duration),
    /// Redraw as fast as possible.
    AsFastAsPossible,
}

impl Default for UpdateMode {
    fn default() -> (r: Self)
        ensures
            r is Retained,
    {
        UpdateMode::Retained
    }
}

/// How precisely pointer movement is reported.
#[derive(Clone, Copy, Debug, PartialEq, Eq, Structural)]
pub enum MouseMode {
    /// An event per pixel of movement.
    Normal,
    /// Raw, unaccelerated device values.
    DirectInput,
}

impl Default for MouseMode {
    fn default() -> (r: Self)
        ensures
            r == MouseMode::Normal,
    {
        MouseMode::Normal
    }
}

/// A monitor, named by its place in the order in which the platform lists
/// the connected monitors. A place that is past the last connected monitor
/// stands for the primary monitor.
#[derive(Clone, Copy, Debug, PartialEq, Eq, Structural)]
pub struct MonitorHandle {
    pub index: usize,
}

/// The monitor a window opens on.
#[derive(Clone, Copy, Debug, PartialEq, Eq, Structural)]
pub enum WindowMonitorTarget {
    /// The primary monitor.
    Primary,
    /// A monitor picked from the connected ones.
    Custom(MonitorHandle),
}

impl Default for WindowMonitorTarget {
    fn default() -> (r: Self)
        ensures
            r == WindowMonitorTarget::Primary,
    {
        WindowMonitorTarget::Primary
    }
}

impl WindowMonitorTarget {
    /// The place of the monitor to open on among `connected` monitors, or
    /// `None` for the primary monitor.
    pub open spec fn place_among(self, connected: usize) -> Option<usize> {
        match self {
            WindowMonitorTarget::Primary => None,
            WindowMonitorTarget::Custom(handle) => if handle.index < connected {
                Some(handle.index)
            } else {
                None
            },
        }
    }

    /// Picks the monitor to open on when `connected` monitors are listed.
    ///
    /// A monitor that was picked by its place is used if it is still
    /// connected. In every other case the window opens on the primary
    /// monitor, for which `None` stands.
    pub fn monitor_index(self, connected: usize) -> (place: Option<usize>)
        ensures
            place == self.place_among(connected),
            place matches Some(i) ==> i < connected,
    {
        match self {
            WindowMonitorTarget::Primary => None,
            WindowMonitorTarget::Custom(handle) => if handle.index < connected {
                Some(handle.index)
            } else {
                None
            },
        }
    }

    /// The text that [`WindowMonitorTarget::to_debug_string`] returns.
    pub open spec fn spec_debug_string(self) -> Seq<char> {
        match self {
            WindowMonitorTarget::Primary => "WindowMonitorTarget::Primary"@,
            WindowMonitorTarget::Custom(_) => "WindowMonitorTarget::Custom(_)"@,
        }
    }

    /// Names the variant, without the monitor that `Custom` holds.
    pub fn to_debug_string(&self) -> (r: String)
        ensures
            r@ == self.spec_debug_string(),
    {
        match self {
            WindowMonitorTarget::Primary => "WindowMonitorTarget::Primary".to_owned(),
            WindowMonitorTarget::Custom(_) => "WindowMonitorTarget::Custom(_)".to_owned(),
        }
    }
}

/// Everything that is fixed when a window is opened.
#[derive(Debug, PartialEq, Eq)]
pub struct WindowCreateOptions {
    /// Title, size, flags and position the window starts with.
    pub state: WindowState,
    /// Colour the frame is cleared to.
    pub background: ColorF,
    /// Value the stencil buffer is cleared to; not cleared if `None`.
    pub clear_stencil: Option<i32>,
    /// Value the depth buffer is cleared to; not cleared if `None`.
    pub clear_depth: Option<FloatBits>,
    /// How often the screen is redrawn.
    pub update_mode: UpdateMode,
    /// The monitor the window opens on.
    pub monitor: WindowMonitorTarget,
    /// How precisely pointer movement is reported.
    pub mouse_mode: MouseMode,
    /// Whether the window is redrawn while the pointer is elsewhere.
    pub update_behaviour: UpdateBehaviour,
    /// Which renderer backend the window is given.
    pub renderer_type: RendererType,
}

impl Clone for WindowCreateOptions {
    fn clone(&self) -> (r: Self)
        ensures
            r.state@ == self.state@,
            r.background == self.background,
            r.clear_stencil == self.clear_stencil,
            r.clear_depth == self.clear_depth,
            r.update_mode == self.update_mode,
            r.monitor == self.monitor,
            r.mouse_mode == self.mouse_mode,
            r.update_behaviour == self.update_behaviour,
            r.renderer_type == self.renderer_type,
    {
        WindowCreateOptions {
            state: self.state.clone(),
            background: self.background,
            clear_stencil: self.clear_stencil,
            clear_depth: self.clear_depth,
            update_mode: self.update_mode,
            monitor: self.monitor,
            mouse_mode: self.mouse_mode,
            update_behaviour: self.update_behaviour,
            renderer_type: self.renderer_type,
        }
    }
}

impl Default for WindowCreateOptions {
    fn default() -> (r: Self)
        ensures
            r.state@ == WindowState::spec_default_view(),
            r.background.is_opaque_white(),
            r.clear_stencil is None,
            r.clear_depth is None,
            r.update_mode is Retained,
            r.monitor == WindowMonitorTarget::Primary,
            r.mouse_mode == MouseMode::Normal,
            r.update_behaviour == UpdateBehaviour::UpdateOnHover,
            r.renderer_type == RendererType::Default,
    {
        let white = FloatBits::from_bits(ONE_BITS);
        WindowCreateOptions {
            state: WindowState::default(),
            background: ColorF::new(white, white, white, white),
            clear_stencil: None,
            clear_depth: None,
            update_mode: UpdateMode::default(),
            monitor: WindowMonitorTarget::default(),
            mouse_mode: MouseMode::default(),
            update_behaviour: UpdateBehaviour::default(),
            renderer_type: RendererType::default(),
        }
    }
}

} // verus!

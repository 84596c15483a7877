//! Handles that user code is given: the identity of a window, the window as
//! callbacks see it, and the event that a callback is invoked with.

use vstd::prelude::*;
use crate::scalar::{FloatBits, ZERO_BITS};
use crate::window_state::{KeyboardState, MouseState, WindowState, WindowStateView};

verus! {

/// Identifies a window among those that the application owns.
#[derive(Clone, Copy, Debug, PartialEq, Eq, PartialOrd, Ord, Structural)]
pub struct WindowId {
    pub id: usize,
}

impl WindowId {
    /// The handle with the given number.
    pub fn new(id: usize) -> (w: Self)
        ensures
            w.id == id,
    {
        Self { id: id }
    }
}

/// The window as user code sees it during a callback: the state that is
/// asked for the next frame, open to changes, and the mouse and keyboard
/// snapshots, open to reading only.
#[derive(Debug, PartialEq, Eq)]
pub struct FakeWindow {
    /// The window state for the next frame.
    pub state: WindowState,
}

impl Clone for FakeWindow {
    fn clone(&self) -> (r: Self)
        ensures
            r.state@ == self.state@,
    {
        FakeWindow { state: self.state.clone() }
    }
}

impl FakeWindow {
    /// Stores a copy of the keyboard snapshot; nothing else changes.
    pub fn set_keyboard_state(&mut self, kb: &KeyboardState)
        ensures
            final(self).state@ == (WindowStateView { keyboard_state: kb@, ..old(self).state@ }),
    {
        self.state.keyboard_state = kb.clone();
    }

    /// Stores the mouse snapshot; nothing else changes.
    pub fn set_mouse_state(&mut self, mouse: &MouseState)
        ensures
            final(self).state@ == (WindowStateView { mouse_state: *mouse, ..old(self).state@ }),
    {
        self.state.mouse_state = *mouse;
    }

    /// A copy of the keyboard snapshot.
    pub fn get_keyboard_state(&self) -> (kb: KeyboardState)
        ensures
            kb@ == self.state@.keyboard_state,
    {
        self.state.keyboard_state.clone()
    }

    /// A copy of the mouse snapshot.
    pub fn get_mouse_state(&self) -> (mouse: MouseState)
        ensures
            mouse == self.state.mouse_state,
    {
        self.state.mouse_state
    }
}

/// What a callback is told about the event it is invoked for.
#[derive(Clone, Copy, Debug, PartialEq, Eq)]
pub struct WindowEvent {
    /// Index of the window that the event happened in.
    pub window: usize,
    /// How many siblings come before the element that was hit; `None` if the
    /// root element was hit.
    pub number_of_previous_siblings: Option<usize>,
    /// Pointer position, from the top left corner of the element hit.
    pub cursor_relative_to_item: (FloatBits, FloatBits),
    /// Pointer position, from the top left corner of the window.
    pub cursor_in_viewport: (FloatBits, FloatBits),
}

impl WindowEvent {
    /// An event in window zero on the root element with the pointer at the
    /// origin, for invoking callbacks without a window.
    pub fn mock() -> (e: Self)
        ensures
            e.window == 0,
            e.number_of_previous_siblings is None,
            e.cursor_relative_to_item.0.bits == ZERO_BITS,
            e.cursor_relative_to_item.1.bits == ZERO_BITS,
            e.cursor_in_viewport.0.bits == ZERO_BITS,
            e.cursor_in_viewport.1.bits == ZERO_BITS,
    {
        Self {
            window: 0,
            number_of_previous_siblings: None,
            cursor_relative_to_item: (FloatBits::zero(), FloatBits::zero()),
            cursor_in_viewport: (FloatBits::zero(), FloatBits::zero()),
        }
    }
}

} // verus!

//! Why a window could not be opened.

use vstd::prelude::*;

verus! {

/// The ways in which opening a window can fail.
///
/// Each variant names the stage that failed; the platform's own report of
/// the failure stays with the caller that made the platform call.
#[derive(Clone, Copy, Debug, PartialEq, Eq, Structural)]
pub enum WindowCreateError {
    /// The context speaks WebGL, which the renderer cannot drive.
    WebGlNotSupported,
    /// The display could not be made from the window and the event loop.
    DisplayCreateError,
    /// The OpenGL version is too old or invalid.
    Gl,
    /// No OpenGL context could be made current.
    Context,
    /// No window with a rendering context could be made.
    CreateError,
    /// Front and back buffer could not be swapped.
    SwapBuffers,
    /// Input or output failed.
    Io,
    /// The renderer could not be built.
    Renderer,
}

} // verus!

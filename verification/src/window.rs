//! Window-facing events and configuration.
//!
//! The window itself is platform work that lives outside this layer; what
//! belongs here is the event vocabulary the renderer answers to and the
//! configuration a window is requested with.

use vstd::prelude::*;

verus! {

/// An event the window loop hands to the renderer.
#[derive(Debug, Clone, Copy, PartialEq, Eq, Hash, Structural)]
pub enum WindowEvent {
    /// The event loop is being torn down.
    LoopDestroyed,
    /// One iteration of the main loop: render a frame.
    MainLoop,
    /// The window was asked to close.
    Exit,
}

/// What the renderer answers to a window event.
#[derive(Debug, Clone, Copy, PartialEq, Eq, Hash, Structural)]
pub enum Status {
    /// Keep running.
    Continue,
    /// Leave the event loop.
    Exit,
}

/// The configuration a window is requested with.
#[derive(Debug, Clone, Copy)]
pub struct WindowInfo<'a> {
    /// The window title.
    pub title: &'a str,
    /// The requested window height, in pixels.
    pub height: u32,
    /// The requested window width, in pixels.
    pub width: u32,
    /// Whether the window may be resized.
    pub resizable: bool,
}

impl Default for WindowInfo<'_> {
    fn default() -> (r: Self)
        ensures
            r.height == 600,
            r.width == 800,
            !r.resizable,
    {
        Self { title: "Amethyst window", height: 600, width: 800, resizable: false }
    }
}

} // verus!

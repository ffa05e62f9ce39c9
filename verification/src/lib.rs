//! A verified model of the GPU resource and command-submission layer of a
//! Vulkan-class renderer: device and queue selection, buffer and image memory
//! bookkeeping (including staging-based device-local uploads and mipmap
//! generation), the command-buffer recording state machine, swapchain
//! validation and the acquire/present protocol, and the CPU/GPU
//! synchronization primitives.
//!
//! Everything the layer decides or computes is expressed over plain values
//! and carries a contract; the raw graphics-API calls themselves live at the
//! application edge, outside this crate.

use vstd::prelude::*;

pub mod buffer;
pub mod command;
pub mod context;
pub mod descriptor;
pub mod device;
pub mod format;
pub mod frame;
pub mod image;
pub mod pipeline;
pub mod queue;
pub mod renderer;
pub mod shader;
pub mod subbuffer;
pub mod swapchain;
pub mod sync;
pub mod window;

verus! {

/// The maximum number of frames that can be in flight at once.
pub const MAX_FRAMES_IN_FLIGHT: usize = 2;

/// A 2D extent (width and height), in pixels.
#[derive(Debug, Clone, Copy, PartialEq, Eq, Structural)]
pub struct Extent2D {
    pub height: u32,
    pub width: u32,
}

/// A 3D extent (width, height and depth), in pixels.
#[derive(Debug, Clone, Copy, PartialEq, Eq, Structural)]
pub struct Extent3D {
    pub height: u32,
    pub width: u32,
    pub depth: u32,
}

/// A 2D offset, in pixels.
#[derive(Debug, Clone, Copy, PartialEq, Eq, Structural)]
pub struct Offset2D {
    pub x: i32,
    pub y: i32,
}

/// A 3D offset, in pixels.
#[derive(Debug, Clone, Copy, PartialEq, Eq, Structural)]
pub struct Offset3D {
    pub x: i32,
    pub y: i32,
    pub z: i32,
}

} // verus!

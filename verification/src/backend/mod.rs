//! The backends: rendering, sessions, devices and windows.

use vstd::prelude::*;

pub mod allocator;
pub mod input;
pub mod renderer;
pub mod session;
pub mod udev;
pub mod vulkan;
pub mod wayland;
pub mod winit;

verus! {

/// Why buffers could not be swapped.
#[derive(Clone, Copy, Debug, PartialEq, Eq, Structural)]
pub enum SwapBuffersError {
    /// The buffers were swapped already.
    AlreadySwapped,
    /// The context was lost and has to be created anew.
    ContextLost,
    /// Trying again may help.
    TemporaryFailure,
}

} // verus!

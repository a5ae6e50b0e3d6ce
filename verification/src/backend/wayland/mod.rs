//! Running as a client of another Wayland compositor.

use vstd::prelude::*;

use self::dmabuf::CreateDmabufError;
use self::input::InputEvent;
use self::window::{WindowId, WindowSize};

pub mod data;
pub mod dmabuf;
pub mod input;
pub mod laws;
pub mod setup;
pub mod window;

verus! {

/// Why buffers could not be allocated.
#[derive(Clone, Copy, Debug, PartialEq, Eq, Structural)]
pub enum AllocateBuffersError {
    /// The device could not be opened.
    Open(i32),
    /// The device was destroyed.
    DeviceDestroyed,
    /// The buffer could not be exported.
    ExportDmabuf,
    /// There are no free slots.
    NoFreeSlots,
    /// The compositor uses all buffers; another frame may be drawn after the next frame event.
    InUse,
    /// The compositor takes no dmabufs.
    Unsupported,
}

/// Why the connection failed.
#[derive(Clone, Copy, Debug, PartialEq, Eq, Structural)]
pub enum WaylandError {
    Connect,
    InvalidId,
    Dispatch,
    Connection,
    AllocateBuffers(AllocateBuffersError),
}

impl vstd::std_specs::convert::FromSpecImpl<CreateDmabufError> for WaylandError {
    open spec fn obeys_from_spec() -> bool {
        true
    }

    open spec fn from_spec(error: CreateDmabufError) -> WaylandError {
        match error {
            CreateDmabufError::Protocol => WaylandError::InvalidId,
            CreateDmabufError::MissingDmabufGlobal => WaylandError::AllocateBuffers(
                AllocateBuffersError::Unsupported,
            ),
        }
    }
}

impl From<CreateDmabufError> for WaylandError {
    fn from(error: CreateDmabufError) -> (r: WaylandError) {
        match error {
            CreateDmabufError::Protocol => WaylandError::InvalidId,
            CreateDmabufError::MissingDmabufGlobal => WaylandError::AllocateBuffers(
                AllocateBuffersError::Unsupported,
            ),
        }
    }
}

/// An event of the compositor.
#[derive(Clone, Copy, Debug, PartialEq, Eq, Structural)]
pub enum WaylandEvent {
    Input(InputEvent),
    /// A window was resized.
    Resized { new_size: WindowSize, window_id: WindowId },
    /// The next frame of a window will be drawn soon.
    Frame { window_id: WindowId },
    /// A window is asked to close.
    CloseRequested { window_id: WindowId },
}

} // verus!

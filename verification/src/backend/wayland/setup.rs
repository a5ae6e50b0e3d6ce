//! The steps by which the backend connects to a compositor and finds the device that buffers
//! come from.

use vstd::prelude::*;

use nix::sys::stat::{major, minor};

use crate::utils::device_number::{spec_major, spec_minor};

use super::dmabuf::MainDevice;
use super::{AllocateBuffersError, WaylandError};

verus! {

/// What is to be done next.
#[derive(Debug)]
pub enum BackendAction {
    Connect,
    /// Events are waited for and handled.
    Dispatch,
    /// All events that answer requests are handled.
    Roundtrip,
    /// The main device of the compositor is looked up.
    FindDevice,
    /// The path of the render node with the numbers is looked up.
    FindRenderNode(u64, u64),
    /// The path of the primary node with the numbers is looked up.
    FindPrimaryNode(u64, u64),
    /// The device is opened.
    Open,
    /// An allocator is made for the file.
    CreateAllocator(i32),
    /// The connection becomes part of the event loop.
    CreateSource,
}

/// What a step gave.
#[derive(Debug)]
pub enum BackendEvent {
    Done,
    /// The connection was made or events were handled; tells whether all objects of the
    /// compositor are known.
    Dispatched { ready: bool },
    Device(Option<MainDevice>),
    Path(String),
    Opened(i32),
    Failed(i32),
}

/// How far the backend got.
#[derive(Clone, Copy, Debug, PartialEq, Eq, Structural)]
pub enum BackendStage {
    Start,
    Connected,
    Announced,
    Synced,
    Numbered { major: u64, minor: u64 },
    /// There is no render node that can be accessed.
    WithoutRenderNode { major: u64, minor: u64 },
    Located,
    Opened { fd: i32 },
    Allocating,
    Ready,
}

/// A backend that is being set up.
#[derive(Debug)]
pub struct BackendSetup {
    pub stage: BackendStage,
    /// The path of the device, once it is known.
    pub path: Option<String>,
}

/// The error of a device that cannot be had.
pub open spec fn device_error(code: i32) -> WaylandError {
    WaylandError::AllocateBuffers(AllocateBuffersError::Open(code))
}

impl BackendSetup {
    pub open spec fn spec_action(stage: BackendStage) -> Option<BackendAction> {
        match stage {
            BackendStage::Start => Some(BackendAction::Connect),
            BackendStage::Connected => Some(BackendAction::Dispatch),
            BackendStage::Announced => Some(BackendAction::Roundtrip),
            BackendStage::Synced => Some(BackendAction::FindDevice),
            BackendStage::Numbered { major, minor } => Some(
                BackendAction::FindRenderNode(major, minor),
            ),
            BackendStage::WithoutRenderNode { major, minor } => Some(
                BackendAction::FindPrimaryNode(major, minor),
            ),
            BackendStage::Located => Some(BackendAction::Open),
            BackendStage::Opened { fd } => Some(BackendAction::CreateAllocator(fd)),
            BackendStage::Allocating => Some(BackendAction::CreateSource),
            BackendStage::Ready => None,
        }
    }

    /// Whether the event answers what is done at the stage.
    pub open spec fn expects(stage: BackendStage, event: BackendEvent) -> bool {
        match stage {
            BackendStage::Start | BackendStage::Connected => event is Dispatched
                || event is Failed,
            BackendStage::Announced => event is Done || event is Failed,
            BackendStage::Synced => event is Device,
            BackendStage::Numbered { .. } | BackendStage::WithoutRenderNode { .. } => event is Path
                || event is Failed,
            BackendStage::Located => event is Opened || event is Failed,
            BackendStage::Opened { .. } => event is Done || event is Failed,
            BackendStage::Allocating => event is Done || event is Failed,
            BackendStage::Ready => false,
        }
    }

    /// The stage and the path after a step.
    pub open spec fn advanced(
        stage: BackendStage,
        path: Option<String>,
        event: BackendEvent,
    ) -> Result<(BackendStage, Option<String>), WaylandError> {
        match (stage, event) {
            (
                BackendStage::Start | BackendStage::Connected,
                BackendEvent::Dispatched { ready },
            ) => Ok(
                (
                    if ready {
                        BackendStage::Announced
                    } else {
                        BackendStage::Connected
                    },
                    path,
                ),
            ),
            (BackendStage::Start, _) => Err(WaylandError::Connect),
            (BackendStage::Connected, _) => Err(WaylandError::Dispatch),
            (BackendStage::Announced, BackendEvent::Failed(_)) => Err(WaylandError::Dispatch),
            (BackendStage::Announced, _) => Ok((BackendStage::Synced, path)),
            (BackendStage::Synced, BackendEvent::Device(Some(MainDevice::LinuxDmabuf(dev)))) => Ok(
                (
                    BackendStage::Numbered { major: spec_major(dev), minor: spec_minor(dev) },
                    path,
                ),
            ),
            (BackendStage::Synced, BackendEvent::Device(Some(MainDevice::LegacyWlDrm(name)))) => Ok(
                (BackendStage::Located, Some(name)),
            ),
            (BackendStage::Synced, _) => Err(
                WaylandError::AllocateBuffers(AllocateBuffersError::Unsupported),
            ),
            (BackendStage::Numbered { .. }, BackendEvent::Path(found)) => Ok(
                (BackendStage::Located, Some(found)),
            ),
            (BackendStage::Numbered { major, minor }, _) => Ok(
                (BackendStage::WithoutRenderNode { major, minor }, path),
            ),
            (BackendStage::WithoutRenderNode { .. }, BackendEvent::Path(found)) => Ok(
                (BackendStage::Located, Some(found)),
            ),
            (BackendStage::Located, BackendEvent::Opened(fd)) => Ok(
                (BackendStage::Opened { fd }, path),
            ),
            (BackendStage::Opened { .. }, BackendEvent::Done) => Ok(
                (BackendStage::Allocating, path),
            ),
            (BackendStage::Allocating, BackendEvent::Done) => Ok((BackendStage::Ready, path)),
            (BackendStage::Allocating, _) => Err(WaylandError::Connection),
            (_, BackendEvent::Failed(code)) => Err(device_error(code)),
            _ => Ok((stage, path)),
        }
    }

    /// Starts to set up a backend.
    pub fn new() -> (setup: BackendSetup)
        ensures
            setup == (BackendSetup { stage: BackendStage::Start, path: None }),
    {
        BackendSetup { stage: BackendStage::Start, path: None }
    }

    /// What is to be done next; nothing once the backend is set up.
    pub fn next_action(&self) -> (action: Option<BackendAction>)
        ensures
            action == BackendSetup::spec_action(self.stage),
    {
        match self.stage {
            BackendStage::Start => Some(BackendAction::Connect),
            BackendStage::Connected => Some(BackendAction::Dispatch),
            BackendStage::Announced => Some(BackendAction::Roundtrip),
            BackendStage::Synced => Some(BackendAction::FindDevice),
            BackendStage::Numbered { major, minor } => Some(
                BackendAction::FindRenderNode(major, minor),
            ),
            BackendStage::WithoutRenderNode { major, minor } => Some(
                BackendAction::FindPrimaryNode(major, minor),
            ),
            BackendStage::Located => Some(BackendAction::Open),
            BackendStage::Opened { fd } => Some(BackendAction::CreateAllocator(fd)),
            BackendStage::Allocating => Some(BackendAction::CreateSource),
            BackendStage::Ready => None,
        }
    }

    /// Takes what a step gave. Without a render node that can be accessed the primary node is
    /// used.
    pub fn advance(&mut self, event: BackendEvent) -> (r: Result<(), WaylandError>)
        requires
            BackendSetup::expects(old(self).stage, event),
        ensures
            match BackendSetup::advanced(old(self).stage, old(self).path, event) {
                Err(error) => r == Err::<(), WaylandError>(error) && *final(self) == *old(self),
                Ok((stage, path)) => {
                    &&& r == Ok::<(), WaylandError>(())
                    &&& final(self).stage == stage
                    &&& final(self).path == path
                },
            },
    {
        let stage: BackendStage = match (self.stage, event) {
            (
                BackendStage::Start | BackendStage::Connected,
                BackendEvent::Dispatched { ready },
            ) => if ready {
                BackendStage::Announced
            } else {
                BackendStage::Connected
            },
            (BackendStage::Start, _) => {
                return Err(WaylandError::Connect);
            },
            (BackendStage::Connected, _) => {
                return Err(WaylandError::Dispatch);
            },
            (BackendStage::Announced, BackendEvent::Failed(_)) => {
                return Err(WaylandError::Dispatch);
            },
            (BackendStage::Announced, _) => BackendStage::Synced,
            (BackendStage::Synced, BackendEvent::Device(Some(MainDevice::LinuxDmabuf(dev)))) => {
                BackendStage::Numbered { major: major(dev), minor: minor(dev) }
            },
            (BackendStage::Synced, BackendEvent::Device(Some(MainDevice::LegacyWlDrm(name)))) => {
                self.path = Some(name);
                BackendStage::Located
            },
            (BackendStage::Synced, _) => {
                return Err(WaylandError::AllocateBuffers(AllocateBuffersError::Unsupported));
            },
            (BackendStage::Numbered { .. }, BackendEvent::Path(found)) => {
                self.path = Some(found);
                BackendStage::Located
            },
            (BackendStage::Numbered { major, minor }, _) => {
                BackendStage::WithoutRenderNode { major, minor }
            },
            (BackendStage::WithoutRenderNode { .. }, BackendEvent::Path(found)) => {
                self.path = Some(found);
                BackendStage::Located
            },
            (BackendStage::Located, BackendEvent::Opened(fd)) => BackendStage::Opened { fd },
            (BackendStage::Opened { .. }, BackendEvent::Done) => BackendStage::Allocating,
            (BackendStage::Allocating, BackendEvent::Done) => BackendStage::Ready,
            (BackendStage::Allocating, _) => {
                return Err(WaylandError::Connection);
            },
            (_, BackendEvent::Failed(code)) => {
                return Err(WaylandError::AllocateBuffers(AllocateBuffersError::Open(code)));
            },
            (stage, _) => stage,
        };
        self.stage = stage;
        Ok(())
    }
}

/// A device is only opened once its path is known, and no backend gets done without one.
pub proof fn opened_device_has_path(stage: BackendStage, path: Option<String>, event: BackendEvent)
    requires
        BackendSetup::expects(stage, event),
        (stage is Located || stage is Opened || stage is Allocating) ==> path is Some,
    ensures
        BackendSetup::advanced(stage, path, event) matches Ok((next, found)) ==> {
            (next is Located || next is Opened || next is Allocating || next is Ready)
                ==> found is Some
        },
{
}

} // verus!

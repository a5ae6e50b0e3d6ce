//! The timeline on which submissions are counted.

use vstd::prelude::*;

use crate::backend::vulkan::Extension;

use super::Error;

verus! {

/// A timeline: the number of its semaphore, and of the timeline that is shared through it.
#[derive(Clone, Copy, Debug, PartialEq, Eq, Structural)]
pub struct VulkanTimeline {
    pub vk: u64,
    pub drm: Option<u64>,
}

/// How far the creation of a timeline got.
#[derive(Clone, Copy, Debug, PartialEq, Eq, Structural)]
pub enum TimelineSetup {
    /// The semaphore is to be created.
    Create { exportable: bool },
    /// A file descriptor for the semaphore is to be asked for.
    Export { semaphore: u64 },
    /// The file descriptor is to be imported as a shared timeline.
    Import { semaphore: u64, fd: u64 },
    Ready(VulkanTimeline),
}

impl TimelineSetup {
    pub open spec fn advanced(
        self,
        has_extension: bool,
        outcome: Result<u64, i32>,
    ) -> Result<TimelineSetup, Error> {
        match (self, outcome) {
            (TimelineSetup::Create { .. }, Err(code)) => Err(Error::SemaphoreError(code)),
            (TimelineSetup::Create { exportable }, Ok(semaphore)) => if !exportable {
                Ok(TimelineSetup::Ready(VulkanTimeline { vk: semaphore, drm: None }))
            } else if !has_extension {
                Err(Error::MissingExtension(Extension::ExternalSemaphoreFd))
            } else {
                Ok(TimelineSetup::Export { semaphore })
            },
            (TimelineSetup::Export { .. }, Err(code)) => Err(Error::SemaphoreError(code)),
            (TimelineSetup::Export { semaphore }, Ok(fd)) => Ok(
                TimelineSetup::Import { semaphore, fd },
            ),
            (TimelineSetup::Import { semaphore, .. }, Err(_)) => Ok(
                TimelineSetup::Ready(VulkanTimeline { vk: semaphore, drm: None }),
            ),
            (TimelineSetup::Import { semaphore, .. }, Ok(drm)) => Ok(
                TimelineSetup::Ready(VulkanTimeline { vk: semaphore, drm: Some(drm) }),
            ),
            (TimelineSetup::Ready(timeline), _) => Ok(TimelineSetup::Ready(timeline)),
        }
    }

    /// Takes the outcome of a step: what was created, or the code of the error. A timeline that
    /// cannot be shared after all is kept for the renderer alone.
    pub fn advance(self, has_extension: bool, outcome: Result<u64, i32>) -> (r: Result<
        TimelineSetup,
        Error,
    >)
        ensures
            r == self.advanced(has_extension, outcome),
    {
        match (self, outcome) {
            (TimelineSetup::Create { .. }, Err(code)) => Err(Error::SemaphoreError(code)),
            (TimelineSetup::Create { exportable }, Ok(semaphore)) => if !exportable {
                Ok(TimelineSetup::Ready(VulkanTimeline { vk: semaphore, drm: None }))
            } else if !has_extension {
                Err(Error::MissingExtension(Extension::ExternalSemaphoreFd))
            } else {
                Ok(TimelineSetup::Export { semaphore })
            },
            (TimelineSetup::Export { .. }, Err(code)) => Err(Error::SemaphoreError(code)),
            (TimelineSetup::Export { semaphore }, Ok(fd)) => Ok(
                TimelineSetup::Import { semaphore, fd },
            ),
            (TimelineSetup::Import { semaphore, .. }, Err(_)) => Ok(
                TimelineSetup::Ready(VulkanTimeline { vk: semaphore, drm: None }),
            ),
            (TimelineSetup::Import { semaphore, .. }, Ok(drm)) => Ok(
                TimelineSetup::Ready(VulkanTimeline { vk: semaphore, drm: Some(drm) }),
            ),
            (TimelineSetup::Ready(timeline), _) => Ok(TimelineSetup::Ready(timeline)),
        }
    }
}

} // verus!

//! Points on timelines of drm devices as fences.

use vstd::prelude::*;

use super::Interrupted;

verus! {

/// A point on a timeline.
#[derive(Clone, Copy, Debug, PartialEq, Eq, Structural)]
pub struct DrmSyncPoint {
    pub point: u64,
}

impl DrmSyncPoint {
    /// Whether the point is reached, given how far the timeline got, as far as that could be
    /// found out.
    pub fn is_signaled(&self, reached: Option<u64>) -> (r: bool)
        ensures
            r == (reached matches Some(reached) && reached >= self.point),
    {
        match reached {
            Some(reached) => reached >= self.point,
            None => false,
        }
    }

    /// What waiting for the point gives.
    pub fn wait(&self, outcome: Result<(), i32>) -> (r: Result<(), Interrupted>)
        ensures
            r == (match outcome {
                Ok(_) => Ok::<(), Interrupted>(()),
                Err(_) => Err(Interrupted),
            }),
    {
        match outcome {
            Ok(_) => Ok(()),
            Err(_) => Err(Interrupted),
        }
    }

    /// Points on timelines can always be exported.
    pub fn is_exportable(&self) -> (r: bool)
        ensures
            r,
    {
        true
    }
}

/// A point that is reached stays so while the timeline goes on, and so are all points before
/// it.
pub proof fn reached_stays_reached(earlier: u64, point: u64, reached: u64, later: u64)
    requires
        earlier <= point,
        reached >= point,
        later >= reached,
    ensures
        later >= point,
        reached >= earlier,
{
}

} // verus!

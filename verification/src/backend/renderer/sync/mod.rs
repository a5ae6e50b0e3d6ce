//! Waiting for rendering to be done.

use std::sync::Arc;

use vstd::prelude::*;

pub mod drm;
pub mod egl;

verus! {

/// Waiting was interrupted.
///
/// This tells neither whether the fence is signaled, nor that some time is up: waiting should be
/// tried again.
#[derive(Clone, Copy, Debug, PartialEq, Eq, Hash, Structural)]
pub struct Interrupted;

impl Interrupted {
    /// What happened, in words.
    pub fn message(&self) -> (text: &'static str)
        ensures
            text@ == "Wait for Fence was interrupted"@,
    {
        "Wait for Fence was interrupted"
    }
}

/// A fence that will be signaled in finite time. Its answers may change from call to call.
pub trait Fence: Sized {
    /// A handle of the fence outside of the program.
    type Handle;

    /// Whether the fence may answer so when asked whether it is signaled.
    spec fn may_be_signaled(&self, answer: bool) -> bool;

    /// Whether waiting may end so.
    spec fn may_end(&self, outcome: Result<(), Interrupted>) -> bool;

    spec fn spec_is_exportable(&self) -> bool;

    /// Whether this may be the outcome of an export.
    spec fn may_export(&self, handle: Option<Self::Handle>) -> bool;

    /// Whether the fence is signaled.
    fn is_signaled(&self) -> (r: bool)
        ensures
            self.may_be_signaled(r),
    ;

    /// Waits until the fence is signaled.
    fn wait(&self) -> (r: Result<(), Interrupted>)
        ensures
            self.may_end(r),
    ;

    /// Whether the fence can be exported.
    fn is_exportable(&self) -> (r: bool)
        ensures
            r == self.spec_is_exportable(),
    ;

    /// Exports the fence.
    fn export(&self) -> (handle: Option<Self::Handle>)
        ensures
            self.may_export(handle),
    ;
}

/// A fence whose state was looked up. It is not waited for: as long as it is not signaled, waiting
/// has to be tried again.
#[derive(Clone, Copy, Debug, PartialEq, Eq, Structural)]
pub struct FenceState {
    pub signaled: bool,
    /// The file descriptor of the fence, if it has one.
    pub fd: Option<i32>,
}

impl Fence for FenceState {
    type Handle = i32;

    open spec fn may_be_signaled(&self, answer: bool) -> bool {
        answer == self.signaled
    }

    open spec fn may_end(&self, outcome: Result<(), Interrupted>) -> bool {
        outcome is Ok <==> self.signaled
    }

    open spec fn spec_is_exportable(&self) -> bool {
        self.fd is Some
    }

    open spec fn may_export(&self, handle: Option<i32>) -> bool {
        handle == self.fd
    }

    fn is_signaled(&self) -> (r: bool) {
        self.signaled
    }

    fn wait(&self) -> (r: Result<(), Interrupted>) {
        if self.signaled {
            Ok(())
        } else {
            Err(Interrupted)
        }
    }

    fn is_exportable(&self) -> (r: bool) {
        self.fd.is_some()
    }

    fn export(&self) -> (handle: Option<i32>) {
        self.fd
    }
}

/// A point that is reached in finite time.
#[derive(Debug)]
pub struct SyncPoint<F: Fence> {
    pub fence: Option<Arc<F>>,
}

impl<F: Fence> SyncPoint<F> {
    /// A point that is reached already.
    pub fn signaled() -> (point: Self)
        ensures
            point.fence is None,
    {
        SyncPoint { fence: None }
    }

    /// A point that is reached with the fence.
    pub fn new(fence: F) -> (point: Self)
        ensures
            point.fence matches Some(inner) && *inner == fence,
    {
        SyncPoint { fence: Some(Arc::new(fence)) }
    }

    /// The fence, if there is one.
    pub fn get(&self) -> (fence: Option<&F>)
        ensures
            match self.fence {
                Some(inner) => fence == Some(&*inner),
                None => fence is None,
            },
    {
        match &self.fence {
            Some(inner) => Some(&**inner),
            None => None,
        }
    }

    /// Whether the point is reached, as it always is without a fence.
    pub fn is_reached(&self) -> (r: bool)
        ensures
            match self.fence {
                Some(inner) => inner.may_be_signaled(r),
                None => r,
            },
    {
        match &self.fence {
            Some(inner) => inner.is_signaled(),
            None => true,
        }
    }

    /// Waits until the point is reached; without a fence there is nothing to wait for.
    pub fn wait(&self) -> (r: Result<(), Interrupted>)
        ensures
            match self.fence {
                Some(inner) => inner.may_end(r),
                None => r == Ok::<(), Interrupted>(()),
            },
    {
        match &self.fence {
            Some(inner) => inner.wait(),
            None => Ok(()),
        }
    }

    /// Whether the point can be exported, which takes a fence.
    pub fn is_exportable(&self) -> (r: bool)
        ensures
            r == (match self.fence {
                Some(inner) => inner.spec_is_exportable(),
                None => false,
            }),
    {
        match &self.fence {
            Some(inner) => inner.is_exportable(),
            None => false,
        }
    }

    /// Exports the point, which takes a fence.
    pub fn export(&self) -> (handle: Option<F::Handle>)
        ensures
            match self.fence {
                Some(inner) => inner.may_export(handle),
                None => handle is None,
            },
    {
        match &self.fence {
            Some(inner) => inner.export(),
            None => None,
        }
    }
}

} // verus!

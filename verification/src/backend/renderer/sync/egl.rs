//! Fences of EGL.

use vstd::prelude::*;

use super::Interrupted;

verus! {

/// A fence of EGL.
#[derive(Clone, Copy, Debug, PartialEq, Eq, Structural)]
pub struct EGLFence {
    /// Whether the fence exists outside of EGL.
    pub native: bool,
}

impl EGLFence {
    /// Whether the fence is signaled, given what waiting for no time at all gave.
    pub fn is_signaled(&self, outcome: Result<bool, u32>) -> (r: bool)
        ensures
            r == (outcome == Ok::<bool, u32>(true)),
    {
        match outcome {
            Ok(signaled) => signaled,
            Err(_) => false,
        }
    }

    /// What waiting for the fence gives.
    pub fn wait(&self, outcome: Result<bool, u32>) -> (r: Result<(), Interrupted>)
        ensures
            r == (match outcome {
                Ok(_) => Ok::<(), Interrupted>(()),
                Err(_) => Err(Interrupted),
            }),
    {
        match outcome {
            Ok(_) => Ok(()),
            Err(_) => Err(Interrupted),
        }
    }

    /// Whether the fence can be exported.
    pub fn is_exportable(&self) -> (r: bool)
        ensures
            r == self.native,
    {
        self.native
    }
}

} // verus!

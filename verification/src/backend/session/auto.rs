//! Sessions through the best interface that is available.

use vstd::prelude::*;

use super::dbus::logind;
use super::direct::{self, NixError};
use super::{libseat, AsErrno};

verus! {

/// An interface for sessions.
#[derive(Clone, Copy, Debug, PartialEq, Eq, Structural)]
pub enum SessionKind {
    LibSeat,
    Logind,
    Direct,
}

/// The interfaces that were built in. The virtual terminals always are.
#[derive(Clone, Copy, Debug, PartialEq, Eq, Structural)]
pub struct Available {
    pub libseat: bool,
    pub logind: bool,
}

impl Available {
    pub open spec fn has(self, kind: SessionKind) -> bool {
        match kind {
            SessionKind::LibSeat => self.libseat,
            SessionKind::Logind => self.logind,
            SessionKind::Direct => true,
        }
    }
}

impl SessionKind {
    /// The place of an interface in the order in which they are tried.
    pub open spec fn rank(self) -> int {
        match self {
            SessionKind::LibSeat => 0,
            SessionKind::Logind => 1,
            SessionKind::Direct => 2,
        }
    }
}

/// The interface that is tried after one that failed.
pub open spec fn tried_after(available: Available, failed: Option<SessionKind>) -> Option<
    SessionKind,
> {
    if failed is None && available.libseat {
        Some(SessionKind::LibSeat)
    } else if (failed is None || failed == Some(SessionKind::LibSeat)) && available.logind {
        Some(SessionKind::Logind)
    } else if failed != Some(SessionKind::Direct) {
        Some(SessionKind::Direct)
    } else {
        None
    }
}

/// The interface that is tried next, after one that failed; none if all were tried.
pub fn next_session(available: &Available, failed: Option<SessionKind>) -> (next: Option<
    SessionKind,
>)
    ensures
        next == tried_after(*available, failed),
        match next {
            Some(next) => {
                &&& available.has(next)
                &&& failed matches Some(failed) ==> failed.rank() < next.rank()
                &&& forall|other: SessionKind| #[trigger]
                    available.has(other) && other.rank() < next.rank() ==> failed is Some
                        && other.rank() <= failed->0.rank()
            },
            None => failed matches Some(failed) && forall|other: SessionKind| #[trigger]
                available.has(other) ==> other.rank() <= failed.rank(),
        },
{
    let try_libseat: bool = match failed {
        None => true,
        Some(_) => false,
    };
    let try_logind: bool = match failed {
        None | Some(SessionKind::LibSeat) => true,
        _ => false,
    };
    let try_direct: bool = match failed {
        Some(SessionKind::Direct) => false,
        _ => true,
    };
    proof {
        if !try_direct {
            assert(available.has(SessionKind::Direct));
        }
    }
    if try_libseat && available.libseat {
        Some(SessionKind::LibSeat)
    } else if try_logind && available.logind {
        Some(SessionKind::Logind)
    } else if try_direct {
        Some(SessionKind::Direct)
    } else {
        None
    }
}

/// Why a session failed.
#[derive(Debug)]
pub enum Error {
    Logind(logind::Error),
    Direct(direct::Error),
    LibSeat(libseat::Error),
    Nix(NixError),
}

impl AsErrno for Error {
    open spec fn spec_as_errno(&self) -> Option<i32> {
        None
    }

    fn as_errno(&self) -> (errno: Option<i32>) {
        None
    }
}

impl vstd::std_specs::convert::FromSpecImpl<logind::Error> for Error {
    open spec fn obeys_from_spec() -> bool {
        true
    }

    open spec fn from_spec(error: logind::Error) -> Error {
        Error::Logind(error)
    }
}

impl From<logind::Error> for Error {
    fn from(error: logind::Error) -> (r: Error) {
        Error::Logind(error)
    }
}

impl vstd::std_specs::convert::FromSpecImpl<direct::Error> for Error {
    open spec fn obeys_from_spec() -> bool {
        true
    }

    open spec fn from_spec(error: direct::Error) -> Error {
        Error::Direct(error)
    }
}

impl From<direct::Error> for Error {
    fn from(error: direct::Error) -> (r: Error) {
        Error::Direct(error)
    }
}

impl vstd::std_specs::convert::FromSpecImpl<libseat::Error> for Error {
    open spec fn obeys_from_spec() -> bool {
        true
    }

    open spec fn from_spec(error: libseat::Error) -> Error {
        Error::LibSeat(error)
    }
}

impl From<libseat::Error> for Error {
    fn from(error: libseat::Error) -> (r: Error) {
        Error::LibSeat(error)
    }
}

impl vstd::std_specs::convert::FromSpecImpl<NixError> for Error {
    open spec fn obeys_from_spec() -> bool {
        true
    }

    open spec fn from_spec(error: NixError) -> Error {
        Error::Nix(error)
    }
}

impl From<NixError> for Error {
    fn from(error: NixError) -> (r: Error) {
        Error::Nix(error)
    }
}

/// Libseat is tried first and logind after it, each where it was built in, and the virtual terminals
/// are tried last; after them there is nothing left to try.
pub proof fn interfaces_are_tried_in_order(available: Available)
    ensures
        available.libseat ==> tried_after(available, None) == Some(SessionKind::LibSeat),
        !available.libseat ==> tried_after(available, None) == tried_after(
            available,
            Some(SessionKind::LibSeat),
        ),
        available.logind ==> tried_after(available, Some(SessionKind::LibSeat)) == Some(
            SessionKind::Logind,
        ),
        !available.logind ==> tried_after(available, Some(SessionKind::LibSeat)) == tried_after(
            available,
            Some(SessionKind::Logind),
        ),
        tried_after(available, Some(SessionKind::Logind)) == Some(SessionKind::Direct),
        tried_after(available, Some(SessionKind::Direct)) is None,
{
}

} // verus!

//! Sessions of a seat manager.

use std::collections::HashMap;

use vstd::prelude::*;

use super::{AsErrno, Signal};

verus! {

/// Whether a number stands for an error on Linux and on the BSDs alike.
pub open spec fn common_errno(code: i32) -> bool {
    1 <= code <= 34
}

/// `nix::errno::Errno::from_i32`, as a number: a number that stands for an error is kept, any
/// other becomes zero. The numbers of the first errors are the same on Linux and on the BSDs;
/// which numbers beyond them stand for errors depends on the system, and is left open.
#[verifier::external_body]
fn errno_from_i32(code: i32) -> (errno: i32)
    ensures
        errno == code || errno == 0,
        common_errno(code) ==> errno == code,
{
    nix::errno::Errno::from_i32(code) as i32
}

/// Why a session failed, with the number of the error.
#[derive(Clone, Copy, Debug, PartialEq, Eq, Structural)]
pub enum Error {
    FailedToOpenSession(i32),
    FailedToOpenDevice(i32),
    FailedToCloseDevice(i32),
    FailedToChangeVt(i32),
    /// The session is closed already.
    SessionLost,
}

impl AsErrno for Error {
    open spec fn spec_as_errno(&self) -> Option<i32> {
        match self {
            Error::FailedToOpenSession(errno) => Some(*errno),
            Error::FailedToOpenDevice(errno) => Some(*errno),
            Error::FailedToCloseDevice(errno) => Some(*errno),
            Error::FailedToChangeVt(errno) => Some(*errno),
            Error::SessionLost => None,
        }
    }

    fn as_errno(&self) -> (errno: Option<i32>) {
        match *self {
            Error::FailedToOpenSession(errno) => Some(errno),
            Error::FailedToOpenDevice(errno) => Some(errno),
            Error::FailedToCloseDevice(errno) => Some(errno),
            Error::FailedToChangeVt(errno) => Some(errno),
            Error::SessionLost => None,
        }
    }
}

/// What was asked of the seat.
#[derive(Clone, Copy, Debug, PartialEq, Eq, Structural)]
pub enum Request {
    OpenSession,
    OpenDevice,
    CloseDevice,
    ChangeVt,
}

impl Request {
    /// The error of a request, with a number.
    pub open spec fn failed(self, errno: i32) -> Error {
        match self {
            Request::OpenSession => Error::FailedToOpenSession(errno),
            Request::OpenDevice => Error::FailedToOpenDevice(errno),
            Request::CloseDevice => Error::FailedToCloseDevice(errno),
            Request::ChangeVt => Error::FailedToChangeVt(errno),
        }
    }

    /// The error of a request that the seat refused with a code.
    pub fn error(self, code: i32) -> (error: Error)
        ensures
            error == self.failed(code) || error == self.failed(0),
            common_errno(code) ==> error == self.failed(code),
    {
        self.error_with(errno_from_i32(code))
    }

    /// The error of a request with the number of a known error.
    pub fn error_with(self, errno: i32) -> (error: Error)
        ensures
            error == self.failed(errno),
    {
        match self {
            Request::OpenSession => Error::FailedToOpenSession(errno),
            Request::OpenDevice => Error::FailedToOpenDevice(errno),
            Request::CloseDevice => Error::FailedToCloseDevice(errno),
            Request::ChangeVt => Error::FailedToChangeVt(errno),
        }
    }
}

/// What the seat tells.
#[derive(Clone, Copy, Debug, PartialEq, Eq, Structural)]
pub enum SeatEvent {
    Enable,
    Disable,
}

/// A session: whether it is active, and the seat's numbers for the devices that were opened.
pub struct LibSeatSessionImpl {
    pub active: bool,
    pub devices: HashMap<i32, i32>,
}

impl LibSeatSessionImpl {
    /// A session is active at once if the seat was enabled before anything else came.
    pub fn new(first_event: Option<SeatEvent>) -> (session: LibSeatSessionImpl)
        ensures
            session.active == (first_event == Some(SeatEvent::Enable)),
            session.devices@ == Map::<i32, i32>::empty(),
    {
        broadcast use vstd::std_specs::hash::group_hash_axioms;

        let active: bool = match first_event {
            Some(SeatEvent::Enable) => true,
            _ => false,
        };
        LibSeatSessionImpl { active, devices: HashMap::new() }
    }

    /// A device was opened: the file descriptor stands for the number that the seat gave.
    pub fn opened(&mut self, outcome: Result<(i32, i32), i32>) -> (r: Result<i32, Error>)
        ensures
            final(self).active == old(self).active,
            match outcome {
                Ok((id, fd)) => r == Ok::<i32, Error>(fd) && final(self).devices@
                    == old(self).devices@.insert(fd, id),
                Err(code) => (r == Err::<i32, Error>(Error::FailedToOpenDevice(code)) || r
                    == Err::<i32, Error>(Error::FailedToOpenDevice(0)) && !common_errno(code))
                    && final(self).devices@ == old(self).devices@,
            },
    {
        broadcast use vstd::std_specs::hash::group_hash_axioms;

        match outcome {
            Ok((id, fd)) => {
                let _ = self.devices.insert(fd, id);
                Ok(fd)
            },
            Err(code) => Err(Request::OpenDevice.error(code)),
        }
    }

    /// The number by which the seat is asked to close a device; none for a file descriptor that
    /// is not from the seat.
    pub fn device(&self, fd: i32) -> (id: Option<i32>)
        ensures
            id == (if self.devices@.contains_key(fd) {
                Some(self.devices@[fd])
            } else {
                None
            }),
    {
        broadcast use vstd::std_specs::hash::group_hash_axioms;

        match self.devices.get(&fd) {
            Some(id) => Some(*id),
            None => None,
        }
    }

    /// What comes of closing a device; `outcome` is what the seat said, if it was asked.
    pub fn closed(outcome: Option<Result<(), i32>>) -> (r: Result<(), Error>)
        ensures
            match outcome {
                Some(Err(code)) => r == Err::<(), Error>(Error::FailedToCloseDevice(code)) || r
                    == Err::<(), Error>(Error::FailedToCloseDevice(0)) && !common_errno(code),
                _ => r == Ok::<(), Error>(()),
            },
    {
        match outcome {
            Some(Err(code)) => Err(Request::CloseDevice.error(code)),
            _ => Ok(()),
        }
    }

    /// What comes of showing another virtual terminal.
    pub fn vt_changed(outcome: Result<(), i32>) -> (r: Result<(), Error>)
        ensures
            match outcome {
                Ok(_) => r == Ok::<(), Error>(()),
                Err(code) => r == Err::<(), Error>(Error::FailedToChangeVt(code)) || r == Err::<
                    (),
                    Error,
                >(Error::FailedToChangeVt(0)) && !common_errno(code),
            },
    {
        match outcome {
            Ok(_) => Ok(()),
            Err(code) => Err(Request::ChangeVt.error(code)),
        }
    }

    /// Whether the session is active after an event, whether the seat has to be told, and what the
    /// observers are told.
    pub open spec fn told_by(event: SeatEvent) -> (bool, bool, Signal) {
        match event {
            SeatEvent::Enable => (true, false, Signal::ActivateSession),
            SeatEvent::Disable => (false, true, Signal::PauseSession),
        }
    }

    /// The seat told something. A seat that is to be disabled has to be told that it may be
    /// (`true`), before the observers are told.
    pub fn process_event(&mut self, event: SeatEvent) -> (r: (bool, Signal))
        ensures
            (final(self).active, r.0, r.1) == LibSeatSessionImpl::told_by(event),
            final(self).devices@ == old(self).devices@,
            final(self).active == (event == SeatEvent::Enable),
            r == (match event {
                SeatEvent::Enable => (false, Signal::ActivateSession),
                SeatEvent::Disable => (true, Signal::PauseSession),
            }),
    {
        match event {
            SeatEvent::Enable => {
                self.active = true;
                (false, Signal::ActivateSession)
            },
            SeatEvent::Disable => {
                self.active = false;
                (true, Signal::PauseSession)
            },
        }
    }

    /// The session, as long as it is not closed.
    pub fn check_open(open: bool) -> (r: Result<(), Error>)
        ensures
            r == (if open {
                Ok::<(), Error>(())
            } else {
                Err(Error::SessionLost)
            }),
    {
        if open {
            Ok(())
        } else {
            Err(Error::SessionLost)
        }
    }
}

/// A device that was opened can be closed by its file descriptor, whatever was opened since
/// under other file descriptors.
pub proof fn opened_device_is_known(devices: Map<i32, i32>, fd: i32, id: i32, other: i32, n: i32)
    requires
        other != fd,
    ensures
        devices.insert(fd, id).insert(other, n)[fd] == id,
        devices.insert(fd, id).insert(other, n).contains_key(fd),
{
}

/// Observers go on exactly when the session becomes active, and pause exactly when the seat has to
/// be told that it may be disabled.
pub proof fn observers_follow_the_seat(event: SeatEvent)
    ensures
        ({
            let (active, tell, signal) = LibSeatSessionImpl::told_by(event);
            &&& active <==> event is Enable
            &&& active <==> signal is ActivateSession
            &&& tell <==> event is Disable
            &&& tell <==> signal is PauseSession
        }),
{
}

/// Each request has an error of its own, which keeps its number.
pub proof fn request_has_its_own_error(a: Request, b: Request, m: i32, n: i32)
    ensures
        a.failed(m) == b.failed(n) <==> a == b && m == n,
        a.failed(m).spec_as_errno() == Some(m),
        a is OpenSession <==> a.failed(m) is FailedToOpenSession,
        a is OpenDevice <==> a.failed(m) is FailedToOpenDevice,
        a is CloseDevice <==> a.failed(m) is FailedToCloseDevice,
        a is ChangeVt <==> a.failed(m) is FailedToChangeVt,
{
}

} // verus!

//! Sessions, which give access to devices and switch between virtual terminals.
//!
//! A session is paused while another one is shown; whoever uses its devices is told so.

use vstd::prelude::*;

pub mod auto;
pub mod dbus;
pub mod direct;
pub mod libseat;
pub mod multi;

verus! {

/// What observers of a session are told.
#[derive(Clone, Copy, Debug, PartialEq, Eq, Structural)]
pub enum Signal {
    /// The session is about to be paused.
    PauseSession,
    /// The session is active again.
    ActivateSession,
}

/// What an observer was told, with the device that it is about, if it is about one only.
#[derive(Clone, Copy, Debug, PartialEq, Eq)]
pub enum Notification {
    Pause(Option<(u32, u32)>),
    Activate(Option<(u32, u32, Option<i32>)>),
}

/// Errors that may be described by an error number.
pub trait AsErrno {
    spec fn spec_as_errno(&self) -> Option<i32>;

    /// The error number of this error, if any.
    fn as_errno(&self) -> (errno: Option<i32>)
        ensures
            errno == self.spec_as_errno(),
    ;
}

impl AsErrno for () {
    open spec fn spec_as_errno(&self) -> Option<i32> {
        None
    }

    fn as_errno(&self) -> (errno: Option<i32>) {
        None
    }
}

/// A session.
pub trait Session {
    type Error: AsErrno;

    spec fn spec_is_active(&self) -> bool;

    spec fn spec_seat(&self) -> Seq<char>;

    /// Opens a device at a path with the given flags; gives its file descriptor.
    fn open(&mut self, path: &str, flags: i32) -> (r: Result<i32, Self::Error>)
        ensures
            final(self).spec_seat() == old(self).spec_seat(),
    ;

    /// Closes a device that was opened before.
    fn close(&mut self, fd: i32) -> (r: Result<(), Self::Error>)
        ensures
            final(self).spec_seat() == old(self).spec_seat(),
    ;

    /// Changes the active virtual terminal.
    fn change_vt(&mut self, vt: i32) -> (r: Result<(), Self::Error>)
        ensures
            final(self).spec_seat() == old(self).spec_seat(),
    ;

    /// Whether the session is active.
    fn is_active(&self) -> (active: bool)
        ensures
            active == self.spec_is_active(),
    ;

    /// The seat of the session.
    fn seat(&self) -> (seat: String)
        ensures
            seat@ == self.spec_seat(),
    ;
}

/// A session without devices.
impl Session for () {
    type Error = ();

    open spec fn spec_is_active(&self) -> bool {
        false
    }

    open spec fn spec_seat(&self) -> Seq<char> {
        "seat0"@
    }

    fn open(&mut self, path: &str, flags: i32) -> (r: Result<i32, ()>)
        ensures
            r == Err::<i32, ()>(()),
    {
        Err(())
    }

    fn close(&mut self, fd: i32) -> (r: Result<(), ()>)
        ensures
            r == Err::<(), ()>(()),
    {
        Err(())
    }

    fn change_vt(&mut self, vt: i32) -> (r: Result<(), ()>)
        ensures
            r == Err::<(), ()>(()),
    {
        Err(())
    }

    fn is_active(&self) -> (active: bool) {
        false
    }

    fn seat(&self) -> (seat: String) {
        "seat0".to_owned()
    }
}

/// Someone who is told when the session is paused or becomes active again.
pub trait SessionObserver {
    /// What the observer was told so far.
    spec fn told(&self) -> Seq<Notification>;

    /// The session, or one device of it, is about to be paused. The device is given by its
    /// major and minor number; observers that do not use it ignore the call.
    fn pause(&mut self, device: Option<(u32, u32)>)
        ensures
            final(self).told() == old(self).told().push(Notification::Pause(device)),
    ;

    /// The session, or one device of it, is active again. A device may come with a new file
    /// descriptor, which replaces the old one.
    fn activate(&mut self, device: Option<(u32, u32, Option<i32>)>)
        ensures
            final(self).told() == old(self).told().push(Notification::Activate(device)),
    ;
}

/// Something that has an observer related to it.
pub trait AsSessionObserver<S: SessionObserver> {
    /// Creates an observer linked to this object.
    fn observer(&mut self) -> (observer: S);
}

impl<T: SessionObserver + Clone> AsSessionObserver<T> for T {
    fn observer(&mut self) -> (observer: T)
        ensures
            *final(self) == *old(self),
            cloned(*old(self), observer),
    {
        self.clone()
    }
}

/// An observer that keeps what it is told until someone asks.
#[derive(Debug)]
pub struct Mailbox {
    pub notifications: Vec<Notification>,
}

impl Mailbox {
    /// Nothing was told yet.
    pub fn new() -> (mailbox: Mailbox)
        ensures
            mailbox.told() == Seq::<Notification>::empty(),
    {
        Mailbox { notifications: Vec::new() }
    }
}

impl SessionObserver for Mailbox {
    open spec fn told(&self) -> Seq<Notification> {
        self.notifications@
    }

    fn pause(&mut self, device: Option<(u32, u32)>) {
        self.notifications.push(Notification::Pause(device));
    }

    fn activate(&mut self, device: Option<(u32, u32, Option<i32>)>) {
        self.notifications.push(Notification::Activate(device));
    }
}

/// The notification reaches an observer.
pub fn notify<O: SessionObserver>(observer: &mut O, notification: Notification)
    ensures
        final(observer).told() == old(observer).told().push(notification),
{
    match notification {
        Notification::Pause(device) => observer.pause(device),
        Notification::Activate(device) => observer.activate(device),
    }
}

} // verus!

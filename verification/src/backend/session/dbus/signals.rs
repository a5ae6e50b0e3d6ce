//! A session of logind at work: the signals it gets and the calls it makes.

use vstd::prelude::*;

use nix::sys::stat::{major, minor};

use crate::backend::session::{notify, Notification, SessionObserver};
use crate::utils::device_number::{spec_major, spec_minor};
use crate::utils::text::same_text;

use super::logind::{
    arg_models, asked_once, call_session, four_signals_are_asked_for, lemma_rules_by_parts,
    session_call, started, Arg, ArgModel, CallModel, Error, EventModel, LogindSetup, MethodCall,
    SetupModel, SetupStep,
};
use super::Interest;

verus! {

/// A signal, with the arguments as far as they are of the types that are looked for.
#[derive(Debug)]
pub struct SignalMessage {
    pub interface: String,
    pub member: String,
    /// The first argument, if it is a text.
    pub name: Option<String>,
    /// The first argument, if it is a number.
    pub major: Option<u32>,
    /// The second argument, if it is a number.
    pub minor: Option<u32>,
    /// The third argument, if it is a text.
    pub kind: Option<String>,
    /// The third argument, if it is a file descriptor.
    pub fd: Option<i32>,
    /// The second argument, if it is a list of properties; each with its value, if that is a
    /// truth value.
    pub changed: Option<Vec<(String, Option<bool>)>>,
}

/// Something that came from the bus.
#[derive(Debug)]
pub enum BusItem {
    Signal(SignalMessage),
    Other,
}

/// What a session and its observers know.
pub struct SessionState {
    pub active: bool,
    /// What each observer was told.
    pub told: Seq<Option<Seq<Notification>>>,
}

/// What is to be done after a signal.
pub enum Handled {
    Next,
    /// The signal did not hold what it has to.
    Unexpected,
    /// Logind waits to hear that the device is paused.
    Acknowledge(u32, u32),
}

/// The value of the property that tells whether the session is active, if it changed.
pub open spec fn active_property(changed: Seq<(String, Option<bool>)>) -> Option<bool>
    decreases changed.len(),
{
    if changed.len() == 0 {
        None
    } else if changed.first().0@ == "Active"@ {
        changed.first().1
    } else {
        active_property(changed.drop_first())
    }
}

impl SessionState {
    /// All observers were told.
    pub open spec fn notified(self, notification: Notification) -> SessionState {
        SessionState {
            active: self.active,
            told: Seq::new(
                self.told.len(),
                |i: int|
                    match self.told[i] {
                        Some(told) => Some(told.push(notification)),
                        None => None,
                    },
            ),
        }
    }

    pub open spec fn with_active(self, active: bool) -> SessionState {
        SessionState { active, told: self.told }
    }

    /// What a signal does.
    pub open spec fn handled(self, message: SignalMessage, session_id: Seq<char>) -> (
        SessionState,
        Handled,
    ) {
        if message.interface@ == "org.freedesktop.login1.Manager"@ && message.member@
            == "SessionRemoved"@ && message.name->0@ == session_id {
            (self.notified(Notification::Pause(None)).with_active(false), Handled::Next)
        } else if message.interface@ == "org.freedesktop.login1.Session"@ {
            if message.member@ == "PauseDevice"@ {
                match (message.major, message.minor, message.kind) {
                    (Some(major), Some(minor), Some(kind)) => {
                        let paused = if kind@ != "gone"@ {
                            self.notified(Notification::Pause(Some((major, minor))))
                        } else {
                            self
                        };
                        (
                            paused,
                            if kind@ == "pause"@ {
                                Handled::Acknowledge(major, minor)
                            } else {
                                Handled::Next
                            },
                        )
                    },
                    _ => (self, Handled::Unexpected),
                }
            } else if message.member@ == "ResumeDevice"@ {
                match (message.major, message.minor, message.fd) {
                    (Some(major), Some(minor), Some(fd)) => (
                        self.notified(Notification::Activate(Some((major, minor, Some(fd))))),
                        Handled::Next,
                    ),
                    _ => (self, Handled::Unexpected),
                }
            } else {
                (self, Handled::Next)
            }
        } else if message.interface@ == "org.freedesktop.DBus.Properties"@ && message.member@
            == "PropertiesChanged"@ {
            match message.changed {
                None => (self, Handled::Unexpected),
                Some(changed) => match active_property(changed@) {
                    Some(active) => (self.with_active(active), Handled::Next),
                    None => (self, Handled::Next),
                },
            }
        } else {
            (self, Handled::Next)
        }
    }

    /// What the items from a position on do, up to the first that fails or has to be
    /// acknowledged; with the position after it.
    pub open spec fn run(self, items: Seq<BusItem>, from: int, session_id: Seq<char>) -> (
        SessionState,
        int,
        Handled,
    )
        decreases items.len() - from,
    {
        if from >= items.len() {
            (self, from, Handled::Next)
        } else {
            match items[from] {
                BusItem::Other => self.run(items, from + 1, session_id),
                BusItem::Signal(message) => {
                    let (next, handled) = self.handled(message, session_id);
                    match handled {
                        Handled::Next => next.run(items, from + 1, session_id),
                        _ => (next, from + 1, handled),
                    }
                },
            }
        }
    }
}

/// The arguments that name a device.
pub open spec fn device_args(major: u32, minor: u32) -> Seq<ArgModel> {
    seq![ArgModel::Number(major), ArgModel::Number(minor)]
}

fn call_for_device(path: &String, member: &str, major: u32, minor: u32) -> (call: MethodCall)
    ensures
        call@ == session_call(path@, member@, device_args(major, minor)),
{
    let mut args: Vec<Arg> = Vec::new();
    args.push(Arg::Number(major));
    args.push(Arg::Number(minor));
    assert(arg_models(args@) =~= device_args(major, minor));
    call_session(path, member, args)
}

/// The value of the property that tells whether the session is active, if it changed.
fn find_active(changed: &Vec<(String, Option<bool>)>) -> (active: Option<bool>)
    ensures
        active == active_property(changed@),
{
    let ghost all = changed@;
    assert(all.skip(0) =~= all);
    for i in 0..changed.len()
        invariant
            all == changed@,
            active_property(all) == active_property(all.skip(i as int)),
    {
        assert(all.skip(i as int).first() == all[i as int]);
        assert(all.skip(i as int).drop_first() =~= all.skip(i as int + 1));
        if same_text(&changed[i].0, "Active") {
            return changed[i].1;
        }
    }
    assert(all.skip(all.len() as int) =~= Seq::<(String, Option<bool>)>::empty());
    None
}

/// A session of logind.
pub struct LogindSessionImpl<O: SessionObserver> {
    pub session_id: String,
    pub session_path: String,
    pub active: bool,
    /// The observers; one that was removed leaves its place empty.
    pub signals: Vec<Option<O>>,
    pub seat: String,
}

/// The id of an observer.
#[derive(Clone, Copy, Debug, PartialEq, Eq, Structural)]
pub struct Id(pub usize);

/// What the observers were told.
pub open spec fn told_all<O: SessionObserver>(signals: Seq<Option<O>>) -> Seq<
    Option<Seq<Notification>>,
> {
    Seq::new(
        signals.len(),
        |i: int|
            match signals[i] {
                Some(observer) => Some(observer.told()),
                None => None,
            },
    )
}

impl<O: SessionObserver> LogindSessionImpl<O> {
    pub open spec fn state(self) -> SessionState {
        SessionState { active: self.active, told: told_all(self.signals@) }
    }

    /// The names of the session are the same.
    pub open spec fn same_session(self, other: Self) -> bool {
        &&& self.session_id == other.session_id
        &&& self.session_path == other.session_path
        &&& self.seat == other.seat
    }

    /// A session that was started; it is active and has no observers.
    pub fn from_setup(setup: LogindSetup) -> (session: Self)
        requires
            setup.step == SetupStep::Done,
        ensures
            session.session_id == setup.session_id,
            session.session_path == setup.session_path,
            session.seat == setup.seat,
            session.active,
            session.signals@ == Seq::<Option<O>>::empty(),
    {
        LogindSessionImpl {
            session_id: setup.session_id,
            session_path: setup.session_path,
            active: true,
            signals: Vec::new(),
            seat: setup.seat,
        }
    }

    /// Adds an observer; the id serves to remove it again.
    pub fn register(&mut self, observer: O) -> (id: Id)
        ensures
            id == Id(old(self).signals@.len() as usize),
            final(self).signals@ == old(self).signals@.push(Some(observer)),
            final(self).active == old(self).active,
            final(self).same_session(*old(self)),
    {
        self.signals.push(Some(observer));
        Id(self.signals.len() - 1)
    }

    /// Removes the observer with the id.
    pub fn unregister(&mut self, id: Id)
        requires
            id.0 < old(self).signals@.len(),
        ensures
            final(self).signals@ == old(self).signals@.update(id.0 as int, None),
            final(self).active == old(self).active,
            final(self).same_session(*old(self)),
    {
        self.signals.set(id.0, None);
    }

    /// Tells every observer.
    fn notify_all(&mut self, notification: Notification)
        ensures
            final(self).state() == old(self).state().notified(notification),
            final(self).same_session(*old(self)),
    {
        let ghost before = self.signals@;
        let n: usize = self.signals.len();
        for i in 0..n
            invariant
                n == before.len(),
                before == old(self).signals@,
                self.signals@.len() == n,
                self.active == old(self).active,
                self.same_session(*old(self)),
                forall|j: int|
                    0 <= j < i ==> match (#[trigger] self.signals@[j], before[j]) {
                        (Some(now), Some(then)) => now.told() == then.told().push(notification),
                        (None, None) => true,
                        _ => false,
                    },
                forall|j: int| i <= j < n ==> #[trigger] self.signals@[j] == before[j],
        {
            match &mut self.signals[i] {
                Some(observer) => {
                    notify(observer, notification);
                },
                None => {},
            }
        }
        proof {
            let told = old(self).state().notified(notification).told;
            assert forall|j: int| 0 <= j < n implies #[trigger] told_all(self.signals@)[j]
                == told[j] by {
                assert(told_all(before)[j] == match before[j] {
                    Some(observer) => Some(observer.told()),
                    None => None,
                });
                match (self.signals@[j], before[j]) {
                    (Some(now), Some(then)) => {},
                    _ => {},
                }
            }
            assert(told_all(self.signals@) =~= told);
        }
    }

    /// Handles a signal. A device that logind wants to hear of again is given back.
    pub fn handle_signal(&mut self, message: &SignalMessage) -> (r: Result<
        Option<(u32, u32)>,
        Error,
    >)
        requires
            message.interface@ == "org.freedesktop.login1.Manager"@ && message.member@
                == "SessionRemoved"@ ==> message.name is Some,
        ensures
            final(self).same_session(*old(self)),
            ({
                let (state, handled) = old(self).state().handled(
                    *message,
                    old(self).session_id@,
                );
                &&& final(self).state() == state
                &&& match handled {
                    Handled::Next => r == Ok::<Option<(u32, u32)>, Error>(None),
                    Handled::Unexpected => r == Err::<Option<(u32, u32)>, Error>(
                        Error::UnexpectedMethodReturn,
                    ),
                    Handled::Acknowledge(major, minor) => r == Ok::<Option<(u32, u32)>, Error>(
                        Some((major, minor)),
                    ),
                }
            }),
    {
        let mut removed: bool = false;
        if same_text(&message.interface, "org.freedesktop.login1.Manager") && same_text(
            &message.member,
            "SessionRemoved",
        ) {
            if let Some(name) = &message.name {
                removed = *name == self.session_id;
            }
        }
        if removed {
            self.notify_all(Notification::Pause(None));
            self.active = false;
            Ok(None)
        } else if same_text(&message.interface, "org.freedesktop.login1.Session") {
            if same_text(&message.member, "PauseDevice") {
                let major: u32 = match message.major {
                    Some(major) => major,
                    None => {
                        return Err(Error::UnexpectedMethodReturn);
                    },
                };
                let minor: u32 = match message.minor {
                    Some(minor) => minor,
                    None => {
                        return Err(Error::UnexpectedMethodReturn);
                    },
                };
                match &message.kind {
                    None => Err(Error::UnexpectedMethodReturn),
                    Some(kind) => {
                        if !same_text(kind, "gone") {
                            self.notify_all(Notification::Pause(Some((major, minor))));
                        }
                        if same_text(kind, "pause") {
                            Ok(Some((major, minor)))
                        } else {
                            Ok(None)
                        }
                    },
                }
            } else if same_text(&message.member, "ResumeDevice") {
                let major: u32 = match message.major {
                    Some(major) => major,
                    None => {
                        return Err(Error::UnexpectedMethodReturn);
                    },
                };
                let minor: u32 = match message.minor {
                    Some(minor) => minor,
                    None => {
                        return Err(Error::UnexpectedMethodReturn);
                    },
                };
                let fd: i32 = match message.fd {
                    Some(fd) => fd,
                    None => {
                        return Err(Error::UnexpectedMethodReturn);
                    },
                };
                self.notify_all(Notification::Activate(Some((major, minor, Some(fd)))));
                Ok(None)
            } else {
                Ok(None)
            }
        } else if same_text(&message.interface, "org.freedesktop.DBus.Properties") && same_text(
            &message.member,
            "PropertiesChanged",
        ) {
            match &message.changed {
                None => Err(Error::UnexpectedMethodReturn),
                Some(changed) => {
                    if let Some(active) = find_active(changed) {
                        self.active = active;
                    }
                    Ok(None)
                },
            }
        } else {
            Ok(None)
        }
    }

    /// Handles what came from the bus, from a position on. Where logind waits to hear that a
    /// device is paused, gives the call that tells it, and the position after the signal.
    pub fn handle_signals(&mut self, items: &Vec<BusItem>, from: usize) -> (r: Result<
        Option<(usize, MethodCall)>,
        Error,
    >)
        requires
            from <= items@.len(),
            forall|i: int|
                0 <= i < items@.len() ==> ((#[trigger] items@[i]) matches BusItem::Signal(message)
                    ==> (message.interface@ == "org.freedesktop.login1.Manager"@
                    && message.member@ == "SessionRemoved"@ ==> message.name is Some)),
        ensures
            final(self).same_session(*old(self)),
            ({
                let (state, at, handled) = old(self).state().run(
                    items@,
                    from as int,
                    old(self).session_id@,
                );
                &&& final(self).state() == state
                &&& match handled {
                    Handled::Next => r == Ok::<Option<(usize, MethodCall)>, Error>(None),
                    Handled::Unexpected => r == Err::<Option<(usize, MethodCall)>, Error>(
                        Error::UnexpectedMethodReturn,
                    ),
                    Handled::Acknowledge(major, minor) => r matches Ok(Some((next, call))) && next
                        == at && call@ == session_call(
                        old(self).session_path@,
                        "PauseDeviceComplete"@,
                        device_args(major, minor),
                    ),
                }
            }),
    {
        let ghost id = self.session_id@;
        let ghost start = self.state();
        let mut i: usize = from;
        while i < items.len()
            invariant
                from <= i <= items@.len(),
                id == old(self).session_id@,
                start == old(self).state(),
                self.same_session(*old(self)),
                start.run(items@, from as int, id) == self.state().run(items@, i as int, id),
                forall|i: int|
                    0 <= i < items@.len() ==> ((#[trigger] items@[i]) matches BusItem::Signal(
                        message,
                    ) ==> (message.interface@ == "org.freedesktop.login1.Manager"@
                        && message.member@ == "SessionRemoved"@ ==> message.name is Some)),
            decreases items@.len() - i,
        {
            match &items[i] {
                BusItem::Other => {},
                BusItem::Signal(message) => {
                    match self.handle_signal(message) {
                        Err(error) => {
                            return Err(error);
                        },
                        Ok(Some((major, minor))) => {
                            let call = call_for_device(
                                &self.session_path,
                                "PauseDeviceComplete",
                                major,
                                minor,
                            );
                            return Ok(Some((i + 1, call)));
                        },
                        Ok(None) => {},
                    }
                },
            }
            i = i + 1;
        }
        Ok(None)
    }

    /// The call by which a device is opened, given the number of the device.
    pub fn open(&self, rdev: Result<u64, i32>) -> (r: Result<MethodCall, Error>)
        ensures
            match rdev {
                Ok(rdev) => r matches Ok(call) && call@ == session_call(
                    self.session_path@,
                    "TakeDevice"@,
                    device_args(spec_major(rdev) as u32, spec_minor(rdev) as u32),
                ),
                Err(e) => r == Err::<MethodCall, Error>(Error::FailedToStatDevice(e)),
            },
    {
        match rdev {
            Ok(rdev) => Ok(
                call_for_device(
                    &self.session_path,
                    "TakeDevice",
                    major(rdev) as u32,
                    minor(rdev) as u32,
                ),
            ),
            Err(e) => Err(Error::FailedToStatDevice(e)),
        }
    }

    /// The call by which a device is closed, given the number of the device.
    pub fn close(&self, rdev: Result<u64, i32>) -> (r: Result<MethodCall, Error>)
        ensures
            match rdev {
                Ok(rdev) => r matches Ok(call) && call@ == session_call(
                    self.session_path@,
                    "ReleaseDevice"@,
                    device_args(spec_major(rdev) as u32, spec_minor(rdev) as u32),
                ),
                Err(e) => r == Err::<MethodCall, Error>(Error::FailedToStatDevice(e)),
            },
    {
        match rdev {
            Ok(rdev) => Ok(
                call_for_device(
                    &self.session_path,
                    "ReleaseDevice",
                    major(rdev) as u32,
                    minor(rdev) as u32,
                ),
            ),
            Err(e) => Err(Error::FailedToStatDevice(e)),
        }
    }

    /// The call by which the session ends.
    pub fn release(&self) -> (call: MethodCall)
        ensures
            call@ == session_call(self.session_path@, "ReleaseControl"@, seq![]),
    {
        let call = call_session(&self.session_path, "ReleaseControl", Vec::new());
        assert(call@.args =~= seq![]);
        call
    }
}

/// The call by which another virtual terminal is shown.
pub fn change_vt(vt_num: i32) -> (call: MethodCall)
    ensures
        call@ == (CallModel {
            path: "/org/freedesktop/login1/seat/self"@,
            interface: "org.freedesktop.login1.Seat"@,
            member: "SwitchTo"@,
            args: seq![ArgModel::Number(vt_num as u32)],
        }),
{
    let mut args: Vec<Arg> = Vec::new();
    args.push(Arg::Number(vt_num as u32));
    let call = MethodCall {
        path: "/org/freedesktop/login1/seat/self".to_owned(),
        interface: "org.freedesktop.login1.Seat".to_owned(),
        member: "SwitchTo".to_owned(),
        args,
    };
    assert(call@.args =~= seq![ArgModel::Number(vt_num as u32)]);
    call
}

/// The file descriptor in the reply to the call that opens a device.
pub fn opened(fd: Option<i32>) -> (r: Result<i32, Error>)
    ensures
        r == (match fd {
            Some(fd) => Ok::<i32, Error>(fd),
            None => Err(Error::UnexpectedMethodReturn),
        }),
{
    match fd {
        Some(fd) => Ok(fd),
        None => Err(Error::UnexpectedMethodReturn),
    }
}

/// The session, as long as it is not closed.
pub fn lookup<T>(session: Option<T>) -> (r: Result<T, Error>)
    ensures
        r == (match session {
            Some(session) => Ok::<T, Error>(session),
            None => Err(Error::SessionLost),
        }),
{
    match session {
        Some(session) => Ok(session),
        None => Err(Error::SessionLost),
    }
}

/// Whether a session is active: one that is closed is not.
pub fn is_active(active: Option<bool>) -> (r: bool)
    ensures
        r == (active == Some(true)),
{
    match active {
        Some(active) => active,
        None => false,
    }
}

/// A file descriptor of the bus.
#[derive(Clone, Copy, Debug, PartialEq, Eq, Structural)]
pub struct WatchFd {
    pub fd: i32,
    pub readable: bool,
    pub writable: bool,
}

/// The file descriptors that have to be watched.
pub open spec fn sources_of(watches: Seq<WatchFd>) -> Seq<(i32, Interest)>
    decreases watches.len(),
{
    if watches.len() == 0 {
        Seq::empty()
    } else {
        let head = sources_of(watches.drop_last());
        match Interest::spec_of(watches.last().readable, watches.last().writable) {
            Some(interest) => head.push((watches.last().fd, interest)),
            None => head,
        }
    }
}

/// What an event loop has to watch for a session: of the file descriptors of the bus those that
/// are read or written.
pub fn logind_session_bind(watches: &Vec<WatchFd>) -> (sources: Vec<(i32, Interest)>)
    ensures
        sources@ == sources_of(watches@),
{
    let mut sources: Vec<(i32, Interest)> = Vec::new();
    assert(watches@.take(0) =~= Seq::<WatchFd>::empty());
    for i in 0..watches.len()
        invariant
            sources@ == sources_of(watches@.take(i as int)),
    {
        assert(watches@.take(i as int + 1).drop_last() =~= watches@.take(i as int));
        if let Some(interest) = Interest::of(watches[i].readable, watches[i].writable) {
            sources.push((watches[i].fd, interest));
        }
    }
    assert(watches@.take(watches.len() as int) =~= watches@);
    sources
}

/// The bit of a file descriptor that can be read.
pub const WATCH_READABLE: u32 = 1;

/// The bit of a file descriptor that can be written.
pub const WATCH_WRITABLE: u32 = 2;

/// What the bus is told of a file descriptor that is ready.
pub fn watch_flags(readable: bool, writable: bool) -> (flags: Option<u32>)
    ensures
        flags == (match (readable, writable) {
            (true, true) => Some(WATCH_READABLE | WATCH_WRITABLE),
            (true, false) => Some(WATCH_READABLE),
            (false, true) => Some(WATCH_WRITABLE),
            (false, false) => None,
        }),
{
    if readable && writable {
        Some(WATCH_READABLE | WATCH_WRITABLE)
    } else if readable {
        Some(WATCH_READABLE)
    } else if writable {
        Some(WATCH_WRITABLE)
    } else {
        None
    }
}

/// A session that was removed pauses all of its observers and is not active any more, and no
/// signal for another session changes anything.
pub proof fn removed_session_is_paused(state: SessionState, message: SignalMessage, id: Seq<char>)
    requires
        message.interface@ == "org.freedesktop.login1.Manager"@,
        message.member@ == "SessionRemoved"@,
        message.name is Some,
    ensures
        message.name->0@ == id ==> state.handled(message, id).0 == state.notified(
            Notification::Pause(None),
        ).with_active(false),
        message.name->0@ != id ==> state.handled(message, id).0 == state,
        state.handled(message, id).1 == Handled::Next,
{
    reveal_strlit("org.freedesktop.login1.Manager");
    reveal_strlit("org.freedesktop.login1.Session");
    reveal_strlit("org.freedesktop.DBus.Properties");
    assert("org.freedesktop.login1.Manager"@[23] == 'M');
    assert("org.freedesktop.login1.Session"@[23] == 'S');
    assert("org.freedesktop.DBus.Properties"@.len() == 31);
    assert("org.freedesktop.login1.Manager"@.len() == 30);
}

/// Handling what came in two parts is the same as handling it at once, as long as nothing in
/// the first part fails or has to be acknowledged.
pub proof fn handling_in_parts(
    state: SessionState,
    first: Seq<BusItem>,
    second: Seq<BusItem>,
    from: int,
    id: Seq<char>,
)
    requires
        0 <= from <= first.len(),
        state.run(first, from, id).2 is Next,
    ensures
        state.run(first + second, from, id) == state.run(first, from, id).0.run(
            first + second,
            first.len() as int,
            id,
        ),
    decreases first.len() - from,
{
    if from < first.len() {
        assert((first + second)[from] == first[from]);
        match first[from] {
            BusItem::Other => {
                handling_in_parts(state, first, second, from + 1, id);
            },
            BusItem::Signal(message) => {
                let (next, handled) = state.handled(message, id);
                handling_in_parts(next, first, second, from + 1, id);
            },
        }
    }
}

/// One more notification for each observer that is there, and none for the others.
pub open spec fn each_told(
    before: SessionState,
    after: SessionState,
    notification: Notification,
) -> bool {
    &&& after.told.len() == before.told.len()
    &&& forall|i: int|
        0 <= i < before.told.len() ==> match (#[trigger] before.told[i], after.told[i]) {
            (Some(then), Some(now)) => now.len() == then.len() + 1 && now.drop_last() == then
                && now.last() == notification,
            (None, None) => true,
            _ => false,
        }
}

proof fn lemma_each_told(state: SessionState, notification: Notification)
    ensures
        each_told(state, state.notified(notification), notification),
        state.notified(notification).active == state.active,
{
    let after = state.notified(notification);
    assert forall|i: int| 0 <= i < state.told.len() implies match (
        #[trigger] state.told[i],
        after.told[i],
    ) {
        (Some(then), Some(now)) => now.len() == then.len() + 1 && now.drop_last() == then
            && now.last() == notification,
        (None, None) => true,
        _ => false,
    } by {
        if let Some(then) = state.told[i] {
            assert(then.push(notification).drop_last() =~= then);
        }
    }
}

proof fn lemma_interfaces_differ()
    ensures
        "org.freedesktop.login1.Manager"@ != "org.freedesktop.login1.Session"@,
        "org.freedesktop.login1.Manager"@ != "org.freedesktop.DBus.Properties"@,
        "org.freedesktop.login1.Session"@ != "org.freedesktop.DBus.Properties"@,
        "PauseDevice"@ != "ResumeDevice"@,
        "gone"@ != "pause"@,
{
    reveal_strlit("org.freedesktop.login1.Manager");
    reveal_strlit("org.freedesktop.login1.Session");
    reveal_strlit("org.freedesktop.DBus.Properties");
    reveal_strlit("PauseDevice");
    reveal_strlit("ResumeDevice");
    reveal_strlit("gone");
    reveal_strlit("pause");
    assert("org.freedesktop.login1.Manager"@[23] == 'M');
    assert("org.freedesktop.login1.Session"@[23] == 'S');
    assert("PauseDevice"@[0] == 'P');
    assert("ResumeDevice"@[0] == 'R');
    assert("gone"@[0] == 'g');
    assert("pause"@[0] == 'p');
}

/// When logind pauses a device, every observer is told that this device is paused, unless it is
/// gone; logind hears back of that device exactly if it asked for it; and the session stays active.
/// A signal that does not name the device or the kind is an error that nobody is told of.
pub proof fn paused_device_is_told(state: SessionState, message: SignalMessage, id: Seq<char>)
    requires
        message.interface@ == "org.freedesktop.login1.Session"@,
        message.member@ == "PauseDevice"@,
    ensures
        ({
            let (after, handled) = state.handled(message, id);
            match (message.major, message.minor, message.kind) {
                (Some(major), Some(minor), Some(kind)) => {
                    &&& after.active == state.active
                    &&& if kind@ == "gone"@ {
                        after.told == state.told
                    } else {
                        each_told(state, after, Notification::Pause(Some((major, minor))))
                    }
                    &&& kind@ == "pause"@ <==> handled == Handled::Acknowledge(major, minor)
                    &&& kind@ != "pause"@ <==> handled == Handled::Next
                },
                _ => after == state && handled == Handled::Unexpected,
            }
        }),
{
    lemma_interfaces_differ();
    if let (Some(major), Some(minor)) = (message.major, message.minor) {
        lemma_each_told(state, Notification::Pause(Some((major, minor))));
    }
}

/// When logind resumes a device, every observer is told of the device and of its new file
/// descriptor; the session stays as it is. A signal without them is an error that nobody is told
/// of.
pub proof fn resumed_device_is_told(state: SessionState, message: SignalMessage, id: Seq<char>)
    requires
        message.interface@ == "org.freedesktop.login1.Session"@,
        message.member@ == "ResumeDevice"@,
    ensures
        ({
            let (after, handled) = state.handled(message, id);
            match (message.major, message.minor, message.fd) {
                (Some(major), Some(minor), Some(fd)) => {
                    &&& after.active == state.active
                    &&& each_told(
                        state,
                        after,
                        Notification::Activate(Some((major, minor, Some(fd)))),
                    )
                    &&& handled == Handled::Next
                },
                _ => after == state && handled == Handled::Unexpected,
            }
        }),
{
    lemma_interfaces_differ();
    if let (Some(major), Some(minor), Some(fd)) = (message.major, message.minor, message.fd) {
        lemma_each_told(state, Notification::Activate(Some((major, minor, Some(fd)))));
    }
}

/// When the session is removed, every observer is told that everything is paused, and the session
/// is not active any more; the removal of another session changes nothing.
pub proof fn removed_session_is_told(state: SessionState, message: SignalMessage, id: Seq<char>)
    requires
        message.interface@ == "org.freedesktop.login1.Manager"@,
        message.member@ == "SessionRemoved"@,
        message.name is Some,
    ensures
        ({
            let (after, handled) = state.handled(message, id);
            &&& handled == Handled::Next
            &&& if message.name->0@ == id {
                !after.active && each_told(state, after, Notification::Pause(None))
            } else {
                after == state
            }
        }),
{
    removed_session_is_paused(state, message, id);
    lemma_each_told(state, Notification::Pause(None));
}

proof fn lemma_active_property(changed: Seq<(String, Option<bool>)>, k: int)
    requires
        0 <= k <= changed.len(),
        forall|j: int| 0 <= j < k ==> (#[trigger] changed[j]).0@ != "Active"@,
    ensures
        k < changed.len() && changed[k].0@ == "Active"@ ==> active_property(changed)
            == changed[k].1,
        k == changed.len() ==> active_property(changed) is None,
    decreases k,
{
    if k > 0 {
        let rest = changed.drop_first();
        assert(changed[0].0@ != "Active"@);
        assert forall|j: int| 0 <= j < k - 1 implies (#[trigger] rest[j]).0@ != "Active"@ by {
            assert(rest[j] == changed[j + 1]);
        }
        lemma_active_property(rest, k - 1);
    }
}

/// When properties of the session change, the session becomes active or inactive as the first
/// property of that name says; nothing changes without it, and no observer is told. A signal
/// without properties is an error.
pub proof fn changed_property_sets_active(
    state: SessionState,
    message: SignalMessage,
    id: Seq<char>,
    k: int,
)
    requires
        message.interface@ == "org.freedesktop.DBus.Properties"@,
        message.member@ == "PropertiesChanged"@,
        message.changed matches Some(changed) ==> {
            &&& 0 <= k <= changed@.len()
            &&& forall|j: int| 0 <= j < k ==> (#[trigger] changed@[j]).0@ != "Active"@
            &&& k < changed@.len() ==> changed@[k].0@ == "Active"@
        },
    ensures
        ({
            let (after, handled) = state.handled(message, id);
            &&& after.told == state.told
            &&& match message.changed {
                None => after.active == state.active && handled == Handled::Unexpected,
                Some(changed) => {
                    &&& handled == Handled::Next
                    &&& after.active == (if k < changed@.len() && changed@[k].1 is Some {
                        changed@[k].1->0
                    } else {
                        state.active
                    })
                },
            }
        }),
{
    lemma_interfaces_differ();
    if let Some(changed) = message.changed {
        lemma_active_property(changed@, k);
    }
}

/// A signal that has any effect is one of those that were asked for when the session was started:
/// one rule names its interface and its member, and the path of the manager or of the session.
pub proof fn handled_signals_are_asked_for(
    states: Seq<SetupModel>,
    events: Seq<EventModel>,
    state: SessionState,
    message: SignalMessage,
    id: Seq<char>,
)
    requires
        started(states, events),
        state.handled(message, id) != (state, Handled::Next),
    ensures
        ({
            let manager = message.interface@ == "org.freedesktop.login1.Manager"@;
            let path = if manager {
                "/org/freedesktop/login1"@
            } else {
                events[4]->Text_0
            };
            let rule = "type='signal',sender='org.freedesktop.login1',interface='"@
                + message.interface@ + "',member='"@ + message.member@ + "',path='"@ + path + "'"@;
            &&& asked_once(states, rule)
            &&& message.member@ == "SessionRemoved"@ ==> manager
        }),
{
    lemma_interfaces_differ();
    lemma_rules_by_parts();
    four_signals_are_asked_for(states, events);
    reveal_strlit("SessionRemoved");
    reveal_strlit("PauseDevice");
    reveal_strlit("ResumeDevice");
    reveal_strlit("PropertiesChanged");
    assert("SessionRemoved"@[0] == 'S');
    assert("PauseDevice"@[0] == 'P');
    assert("ResumeDevice"@[0] == 'R');
    assert("PropertiesChanged"@[0] == 'P');
    assert("PropertiesChanged"@.len() == 17);
    assert("PauseDevice"@.len() == 11);
}

proof fn lemma_sources(watches: Seq<WatchFd>, fd: i32, interest: Interest)
    ensures
        sources_of(watches).contains((fd, interest)) <==> exists|i: int|
            0 <= i < watches.len() && (#[trigger] watches[i]).fd == fd && Some(interest)
                == Interest::spec_of(watches[i].readable, watches[i].writable),
        sources_of(watches).len() <= watches.len(),
    decreases watches.len(),
{
    if watches.len() > 0 {
        let head = watches.drop_last();
        let last = watches.last();
        let (before, all) = (sources_of(head), sources_of(watches));
        lemma_sources(head, fd, interest);
        if before.contains((fd, interest)) {
            let i = choose|i: int| 0 <= i < before.len() && before[i] == (fd, interest);
            assert(all[i] == (fd, interest));
            let k = choose|k: int|
                0 <= k < head.len() && (#[trigger] head[k]).fd == fd && Some(interest)
                    == Interest::spec_of(head[k].readable, head[k].writable);
            assert(watches[k] == head[k]);
        }
        if all.contains((fd, interest)) {
            let i = choose|i: int| 0 <= i < all.len() && all[i] == (fd, interest);
            if i < before.len() {
                assert(before[i] == (fd, interest));
            } else {
                assert(watches[watches.len() - 1].fd == fd);
            }
        }
        if exists|i: int|
            0 <= i < watches.len() && (#[trigger] watches[i]).fd == fd && Some(interest)
                == Interest::spec_of(watches[i].readable, watches[i].writable) {
            let k = choose|k: int|
                0 <= k < watches.len() && (#[trigger] watches[k]).fd == fd && Some(interest)
                    == Interest::spec_of(watches[k].readable, watches[k].writable);
            if k < head.len() {
                assert(head[k] == watches[k]);
            } else {
                assert(all[all.len() - 1] == (fd, interest));
            }
        }
    }
}

/// Exactly the file descriptors of the bus that are read or written are watched, and for that.
pub proof fn used_descriptors_are_watched(
    watches: Vec<WatchFd>,
    sources: Vec<(i32, Interest)>,
    fd: i32,
    interest: Interest,
)
    requires
        call_ensures(logind_session_bind, (&watches,), sources),
    ensures
        sources@.contains((fd, interest)) <==> exists|i: int|
            0 <= i < watches@.len() && (#[trigger] watches@[i]).fd == fd && match interest {
                Interest::Both => watches@[i].readable && watches@[i].writable,
                Interest::Read => watches@[i].readable && !watches@[i].writable,
                Interest::Write => !watches@[i].readable && watches@[i].writable,
            },
{
    lemma_sources(watches@, fd, interest);
    if exists|i: int|
        0 <= i < watches@.len() && (#[trigger] watches@[i]).fd == fd && Some(interest)
            == Interest::spec_of(watches@[i].readable, watches@[i].writable) {
        let k = choose|k: int|
            0 <= k < watches@.len() && (#[trigger] watches@[k]).fd == fd && Some(interest)
                == Interest::spec_of(watches@[k].readable, watches@[k].writable);
        assert(watches@[k].fd == fd);
    }
    if exists|i: int|
        0 <= i < watches@.len() && (#[trigger] watches@[i]).fd == fd && match interest {
            Interest::Both => watches@[i].readable && watches@[i].writable,
            Interest::Read => watches@[i].readable && !watches@[i].writable,
            Interest::Write => !watches@[i].readable && watches@[i].writable,
        } {
        let k = choose|k: int|
            0 <= k < watches@.len() && (#[trigger] watches@[k]).fd == fd && match interest {
                Interest::Both => watches@[k].readable && watches@[k].writable,
                Interest::Read => watches@[k].readable && !watches@[k].writable,
                Interest::Write => !watches@[k].readable && watches@[k].writable,
            };
        assert(watches@[k].fd == fd);
    }
}

/// Devices are opened, closed and switched by calls of the session with the two numbers of the
/// device; the session ends by giving up control.
pub proof fn devices_are_named_in_calls<O: SessionObserver>(
    session: LogindSessionImpl<O>,
    rdev: u64,
    opening: Result<MethodCall, Error>,
    closing: Result<MethodCall, Error>,
    ending: MethodCall,
)
    requires
        call_ensures(LogindSessionImpl::<O>::open, (&session, Ok::<u64, i32>(rdev)), opening),
        call_ensures(LogindSessionImpl::<O>::close, (&session, Ok::<u64, i32>(rdev)), closing),
        call_ensures(LogindSessionImpl::<O>::release, (&session,), ending),
    ensures
        opening is Ok && closing is Ok,
        opening->Ok_0@.member == "TakeDevice"@,
        closing->Ok_0@.member == "ReleaseDevice"@,
        ending@.member == "ReleaseControl"@,
        ending@.args.len() == 0,
        forall|call: CallModel|
            call == opening->Ok_0@ || call == closing->Ok_0@ || call == ending@ ==> {
                &&& (#[trigger] call.path) == session.session_path@
                &&& call.interface == "org.freedesktop.login1.Session"@
            },
        forall|call: CallModel|
            call == opening->Ok_0@ || call == closing->Ok_0@ ==> {
                &&& (#[trigger] call.args).len() == 2
                &&& call.args[0] == ArgModel::Number(spec_major(rdev) as u32)
                &&& call.args[1] == ArgModel::Number(spec_minor(rdev) as u32)
            },
{
}

/// What was read or written of a file descriptor is told to the bus, one bit for each.
pub proof fn readiness_has_two_bits(readable: bool, writable: bool, flags: Option<u32>)
    requires
        call_ensures(watch_flags, (readable, writable), flags),
    ensures
        flags is None <==> !readable && !writable,
        flags matches Some(bits) ==> bits == (if readable {
            1int
        } else {
            0
        }) + (if writable {
            2int
        } else {
            0
        }),
{
    assert(1u32 | 2u32 == 3u32) by (bit_vector);
}

/// What came is handled one after the other: what is no signal is passed over, a signal that needs
/// no answer is followed by the rest, and the first that fails or has to be answered ends the run,
/// with the position behind it.
pub proof fn signals_are_handled_one_by_one(
    state: SessionState,
    items: Seq<BusItem>,
    from: int,
    id: Seq<char>,
)
    requires
        0 <= from <= items.len(),
    ensures
        ({
            let (after, at, handled) = state.run(items, from, id);
            &&& from == items.len() ==> after == state && at == from && handled is Next
            &&& from < items.len() && items[from] is Other ==> state.run(items, from, id)
                == state.run(items, from + 1, id)
            &&& from < items.len() && items[from] is Signal ==> {
                let (next, one) = state.handled(items[from]->Signal_0, id);
                &&& one is Next ==> state.run(items, from, id) == next.run(items, from + 1, id)
                &&& !(one is Next) ==> after == next && at == from + 1 && handled == one
            }
        }),
{
}

/// Another terminal is shown by a call of the seat with the number of the terminal.
pub proof fn terminal_is_named_in_the_call(vt_num: i32, call: MethodCall)
    requires
        call_ensures(change_vt, (vt_num,), call),
    ensures
        call@.interface == "org.freedesktop.login1.Seat"@,
        call@.member == "SwitchTo"@,
        call@.path == "/org/freedesktop/login1/seat/self"@,
        call@.args.len() == 1,
        vt_num >= 0 ==> call@.args[0] is Number && call@.args[0]->Number_0 == vt_num,
{
}

/// The reply to the call that opens a device has to hold its file descriptor, and only a session
/// that is there is used or active.
pub proof fn replies_and_sessions_have_to_be_there(
    fd: Option<i32>,
    r: Result<i32, Error>,
    active: Option<bool>,
    is: bool,
)
    requires
        call_ensures(opened, (fd,), r),
        call_ensures(is_active, (active,), is),
    ensures
        r is Ok <==> fd is Some,
        r matches Ok(n) ==> fd == Some(n),
        r matches Err(error) ==> error is UnexpectedMethodReturn,
        is <==> active is Some && active->0,
{
}

} // verus!

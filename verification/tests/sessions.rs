use smithay::backend::session::auto::{next_session, Available, Error as AutoError, SessionKind};
use smithay::backend::session::dbus::logind::{
    blocking_call, Arg, CallOutcome, Error, LogindSetup, MethodCall, SetupAction, SetupEvent,
    SetupStep,
};
use smithay::backend::session::dbus::signals::{
    change_vt, is_active, logind_session_bind, lookup, opened, watch_flags, BusItem, Id,
    LogindSessionImpl, SignalMessage, WatchFd,
};
use smithay::backend::session::dbus::{
    AlreadyRegistered, DBusConnection, Interest, PollAction, Watch,
};
use smithay::backend::session::direct::{
    is_tty_device, DirectSession, DirectSessionNotifier, Error as DirectError, NixError,
    RegisterError, SwitchStep, TtyAction, TtyEvent, TtyPath, TtySetup, TtySource, VtMode,
};
use smithay::backend::session::libseat::{
    Error as SeatError, LibSeatSessionImpl, Request, SeatEvent,
};
use smithay::backend::session::multi::{Id as MultiId, IdCounter, Multiplexer};
use smithay::backend::session::{
    AsErrno, AsSessionObserver, Mailbox, Notification, Session, SessionObserver, Signal,
};

const TTY: u64 = 0x401;

#[test]
fn the_empty_session_has_nothing() {
    let mut session = ();
    assert_eq!(Session::open(&mut session, "/dev/a", 0), Err(()));
    assert_eq!(Session::close(&mut session, 1), Err(()));
    assert_eq!(Session::change_vt(&mut session, 1), Err(()));
    assert!(!session.is_active());
    assert_eq!(session.seat(), "seat0");
    assert_eq!(().as_errno(), None);
}

#[test]
fn terminals_are_recognized() {
    assert!(is_tty_device(0x400, &TtyPath::Unknown));
    assert!(is_tty_device(0x501, &TtyPath::NoSubsystem));
    assert!(!is_tty_device(0x500, &TtyPath::NoSubsystem));
    assert!(is_tty_device(0x500, &TtyPath::Subsystem("tty".to_string())));
    assert!(!is_tty_device(0x400, &TtyPath::Subsystem("usb".to_string())));
}

fn run(events: &[TtyEvent]) -> Result<TtySetup, DirectError> {
    let mut setup = TtySetup::Start;
    for event in events {
        assert!(setup.next_action().is_some());
        setup = setup.advance(&TtyPath::Unknown, *event)?;
    }
    Ok(setup)
}

const STEPS: [TtyEvent; 8] = [
    TtyEvent::Stat { dev: TTY, rdev: 0x403 },
    TtyEvent::Mode(0),
    TtyEvent::Done,
    TtyEvent::Done,
    TtyEvent::KeyboardMode(7),
    TtyEvent::Done,
    TtyEvent::Done,
    TtyEvent::Done,
];

#[test]
fn a_terminal_is_set_up() {
    let setup = run(&STEPS).ok().unwrap();
    assert_eq!(setup, TtySetup::Ready { vt: 3, old_keyboard_mode: 7 });
    assert_eq!(setup.next_action(), None);
    assert_eq!(run(&STEPS[..2]).ok().unwrap().next_action(), Some(TtyAction::Activate(3)));
    assert_eq!(run(&STEPS[..5]).ok().unwrap().next_action(), Some(TtyAction::SetKeyboardMode(4)));
    assert_eq!(run(&STEPS[..6]).ok().unwrap().next_action(), Some(TtyAction::SetMode(1)));
    let control = VtMode { mode: 1, relsig: 12, acqsig: 12, ..VtMode::default() };
    assert_eq!(run(&STEPS[..7]).ok().unwrap().next_action(), Some(TtyAction::SetVtMode(control)));
}

#[test]
fn every_step_of_the_terminal_has_its_error() {
    let failed = |n: usize| {
        let mut events = STEPS[..n].to_vec();
        events.push(TtyEvent::Failed(9));
        run(&events)
    };
    assert!(matches!(failed(0), Err(DirectError::NotRunningFromTTY)));
    assert!(matches!(failed(1), Err(DirectError::NotRunningFromTTY)));
    assert!(matches!(failed(2), Err(DirectError::FailedToActivateTTY(3, 9))));
    assert!(matches!(failed(3), Err(DirectError::FailedToWaitForTTY(3, 9))));
    assert!(matches!(failed(4), Err(DirectError::FailedToSaveTTYState(3, 9))));
    assert!(matches!(failed(5), Err(DirectError::FailedToSetTTYKbMode(3, 9))));
    assert!(matches!(failed(6), Err(DirectError::FailedToSetTTYMode(3, 9))));
    assert!(matches!(failed(7), Err(DirectError::FailedToTakeControlOfTTY(3, 9))));
    let graphics = [STEPS[0], TtyEvent::Mode(1)];
    assert!(matches!(run(&graphics), Err(DirectError::TTYAlreadyInGraphicsMode)));
    let other = [TtyEvent::Stat { dev: 0x500, rdev: 0 }];
    assert!(matches!(run(&other), Err(DirectError::NotRunningFromTTY)));
}

#[test]
fn a_terminal_session_ends_as_it_began() {
    let setup = run(&STEPS).ok().unwrap();
    let session = DirectSession::from_setup(5, &setup);
    assert_eq!((session.vt(), session.is_active()), (3, true));
    assert_eq!(session.seat(), "seat0");
    assert_eq!(session.change_vt(2), TtyAction::Activate(2));
    assert_eq!(
        session.restore(),
        vec![
            TtyAction::SetKeyboardMode(7),
            TtyAction::SetMode(0),
            TtyAction::SetVtMode(VtMode::default()),
            TtyAction::Close
        ]
    );
    assert_eq!(DirectSession::opened(TtySource::Stdin, Ok(4)).ok(), Some(4));
    assert!(matches!(
        DirectSession::opened(TtySource::Stdin, Err(2)),
        Err(DirectError::FailedToOpenTTY(name, 2)) if name == "<stdin>"
    ));
    assert!(matches!(
        DirectSession::opened(TtySource::Path("/t".to_string()), Err(2)),
        Err(DirectError::FailedToOpenTTY(name, 2)) if name == "/t"
    ));
}

#[test]
fn the_signal_pauses_and_activates() {
    let session = DirectSession::from_setup(5, &run(&STEPS).ok().unwrap());
    let mut notifier = DirectSessionNotifier::from_session(&session);
    assert_eq!(
        notifier.signal_received(),
        (SwitchStep::Tell(Signal::PauseSession), SwitchStep::ReleaseDisplay(1))
    );
    assert!(!notifier.active);
    assert_eq!(
        notifier.signal_received(),
        (SwitchStep::ReleaseDisplay(2), SwitchStep::Tell(Signal::ActivateSession))
    );
    assert_eq!(notifier.check_reregister(), Err(RegisterError::NotFound));
    assert_eq!(notifier.unregister(), Err(RegisterError::NotFound));
    assert_eq!(notifier.check_register(), Ok(()));
    notifier.registered();
    assert_eq!(notifier.check_register(), Err(RegisterError::AlreadyExists));
    assert_eq!(notifier.check_reregister(), Ok(()));
    assert_eq!(notifier.unregister(), Ok(()));
    assert_eq!(NixError::Sys(2).as_errno(), Some(2));
    assert_eq!(NixError::Other.as_errno(), None);
}

#[test]
fn observers_are_told_together() {
    let mut ids = IdCounter::new();
    let mut all: Multiplexer<Mailbox> = Multiplexer::new();
    let first = all.register(&mut ids, Mailbox::new());
    let second = all.register(&mut ids, Mailbox::new());
    assert_eq!((first, second), (MultiId(0), MultiId(1)));
    all.pause(Some((1, 2)));
    all.unregister(first);
    all.unregister(MultiId(9));
    all.activate(None);
    assert_eq!(all.observers.len(), 1);
    assert_eq!(
        all.observers[&second.0].notifications,
        vec![Notification::Pause(Some((1, 2))), Notification::Activate(None)]
    );
    assert_eq!(all.register(&mut ids, Mailbox::new()), MultiId(2));
}

#[test]
fn multiplexers_share_their_ids() {
    let mut ids = IdCounter::new();
    let mut one: Multiplexer<Mailbox> = Multiplexer::new();
    let mut other: Multiplexer<Mailbox> = Multiplexer::new();
    let here = one.register(&mut ids, Mailbox::new());
    let there = other.register(&mut ids, Mailbox::new());
    assert_ne!(here, there);
    one.unregister(there);
    assert_eq!(one.observers.len(), 1);
    one.unregister(here);
    one.unregister(here);
    assert!(one.observers.is_empty());
    other.pause(None);
    assert_eq!(other.observers[&there.0].notifications, vec![Notification::Pause(None)]);
    let mut last = IdCounter { next: usize::MAX };
    assert_eq!(last.next_id(), MultiId(usize::MAX));
    assert_eq!(last.next_id(), MultiId(0));
}

fn advance(setup: &mut LogindSetup, events: Vec<SetupEvent>) -> Result<(), Error> {
    for event in events {
        setup.advance(event)?;
    }
    Ok(())
}

fn text(value: &str) -> SetupEvent {
    SetupEvent::Text(value.to_string())
}

fn started() -> LogindSetup {
    let mut setup = LogindSetup::new();
    let events = vec![
        text("c1"),
        text("seat0"),
        SetupEvent::Number(2),
        SetupEvent::Done,
        text("/path"),
        SetupEvent::Done,
        SetupEvent::Done,
        SetupEvent::Done,
        SetupEvent::Done,
        SetupEvent::Done,
        SetupEvent::Done,
    ];
    assert!(advance(&mut setup, events).is_ok());
    setup
}

#[test]
fn a_session_of_logind_is_started() {
    let mut setup = LogindSetup::new();
    assert!(matches!(setup.next_action(), Some(SetupAction::GetSession)));
    assert!(setup.advance(text("c1")).is_ok());
    assert!(matches!(setup.next_action(), Some(SetupAction::GetSeat(id)) if id == "c1"));
    assert!(setup.advance(text("seat0")).is_ok());
    assert!(setup.advance(SetupEvent::Failed(1)).is_ok());
    assert_eq!(setup.vt, None);
    assert!(setup.advance(SetupEvent::Done).is_ok());
    match setup.next_action() {
        Some(SetupAction::Call(call)) => {
            assert_eq!(call.path, "/org/freedesktop/login1");
            assert_eq!(call.member, "GetSession");
            assert!(matches!(&call.args[0], Arg::Text(id) if id == "c1"));
        }
        _ => panic!("no call"),
    }
    assert!(setup.advance(text("/path")).is_ok());
    match setup.next_action() {
        Some(SetupAction::AddMatch(rule)) => assert_eq!(
            rule,
            "type='signal',sender='org.freedesktop.login1',\
             interface='org.freedesktop.login1.Manager',member='SessionRemoved',\
             path='/org/freedesktop/login1'"
        ),
        _ => panic!("no rule"),
    }
    assert!(setup.advance(SetupEvent::Done).is_ok());
    match setup.next_action() {
        Some(SetupAction::AddMatch(rule)) => assert_eq!(
            rule,
            "type='signal',sender='org.freedesktop.login1',\
             interface='org.freedesktop.login1.Session',member='PauseDevice',path='/path'"
        ),
        _ => panic!("no rule"),
    }
    let done = started();
    assert_eq!(done.step, SetupStep::Done);
    assert!(done.next_action().is_none());
    assert_eq!((done.seat.as_str(), done.vt), ("seat0", Some(2)));
}

#[test]
fn starting_a_session_of_logind_can_fail() {
    let failed = |before: Vec<SetupEvent>, last: SetupEvent| {
        let mut setup = LogindSetup::new();
        assert!(advance(&mut setup, before).is_ok());
        setup.advance(last)
    };
    let known = || vec![text("c1"), text("seat0"), SetupEvent::Number(2)];
    assert!(matches!(
        failed(vec![], SetupEvent::Failed(1)),
        Err(Error::FailedToGetSession(1))
    ));
    assert!(matches!(
        failed(vec![text("c1")], SetupEvent::Failed(1)),
        Err(Error::FailedToGetSeat(1))
    ));
    assert!(matches!(
        failed(known(), SetupEvent::Failed(1)),
        Err(Error::FailedDbusConnection(1))
    ));
    let mut connected = known();
    connected.push(SetupEvent::Done);
    assert!(matches!(
        failed(connected, SetupEvent::Unexpected),
        Err(Error::UnexpectedMethodReturn)
    ));
    let mut found = known();
    found.push(SetupEvent::Done);
    found.push(text("/path"));
    assert!(matches!(
        failed(found, SetupEvent::Failed(1)),
        Err(Error::DbusMatchFailed(rule)) if rule.contains("SessionRemoved")
    ));
    let mut matched = known();
    matched.push(SetupEvent::Done);
    matched.push(text("/path"));
    for _ in 0..4 {
        matched.push(SetupEvent::Done);
    }
    assert!(matches!(
        failed(matched, SetupEvent::Refused),
        Err(Error::DbusCallFailed(call)) if call.member == "Activate"
    ));
}

fn signal(interface: &str, member: &str) -> SignalMessage {
    SignalMessage {
        interface: interface.to_string(),
        member: member.to_string(),
        name: None,
        major: None,
        minor: None,
        kind: None,
        fd: None,
        changed: None,
    }
}

fn pause(kind: &str) -> SignalMessage {
    SignalMessage {
        major: Some(226),
        minor: Some(1),
        kind: Some(kind.to_string()),
        ..signal("org.freedesktop.login1.Session", "PauseDevice")
    }
}

fn session() -> LogindSessionImpl<Mailbox> {
    let mut session = LogindSessionImpl::from_setup(started());
    assert_eq!(session.register(Mailbox::new()), Id(0));
    session
}

fn told(session: &LogindSessionImpl<Mailbox>) -> Vec<Notification> {
    session.signals[0].as_ref().unwrap().notifications.clone()
}

#[test]
fn devices_are_paused_and_resumed() {
    let mut session = session();
    let resume = SignalMessage {
        major: Some(226),
        minor: Some(1),
        fd: Some(8),
        ..signal("org.freedesktop.login1.Session", "ResumeDevice")
    };
    let items = vec![
        BusItem::Other,
        BusItem::Signal(pause("gone")),
        BusItem::Signal(pause("force")),
        BusItem::Signal(pause("pause")),
        BusItem::Signal(resume),
    ];
    let (next, call) = session.handle_signals(&items, 0).ok().unwrap().unwrap();
    assert_eq!(next, 4);
    assert_eq!((call.path.as_str(), call.member.as_str()), ("/path", "PauseDeviceComplete"));
    assert!(matches!(call.args[..], [Arg::Number(226), Arg::Number(1)]));
    assert!(session.handle_signals(&items, next).ok().unwrap().is_none());
    assert_eq!(
        told(&session),
        vec![
            Notification::Pause(Some((226, 1))),
            Notification::Pause(Some((226, 1))),
            Notification::Activate(Some((226, 1, Some(8)))),
        ]
    );
}

#[test]
fn a_removed_session_sleeps() {
    let mut session = session();
    let removed = |name: &str| SignalMessage {
        name: Some(name.to_string()),
        ..signal("org.freedesktop.login1.Manager", "SessionRemoved")
    };
    assert!(session.handle_signal(&removed("other")).is_ok());
    assert!(session.active && told(&session).is_empty());
    assert!(session.handle_signal(&removed("c1")).is_ok());
    assert!(!session.active);
    assert_eq!(told(&session), vec![Notification::Pause(None)]);
    session.unregister(Id(0));
    assert!(session.signals[0].is_none());
    assert!(session.handle_signal(&pause("force")).is_ok());
}

#[test]
fn the_session_follows_its_properties() {
    let mut session = session();
    let changed = |changed| SignalMessage {
        changed,
        ..signal("org.freedesktop.DBus.Properties", "PropertiesChanged")
    };
    let list = vec![("Other".to_string(), Some(true)), ("Active".to_string(), Some(false))];
    assert!(session.handle_signal(&changed(Some(list))).is_ok());
    assert!(!session.active);
    let unknown = vec![("Active".to_string(), None), ("Active".to_string(), Some(true))];
    assert!(session.handle_signal(&changed(Some(unknown))).is_ok());
    assert!(!session.active);
    assert!(matches!(
        session.handle_signal(&changed(None)),
        Err(Error::UnexpectedMethodReturn)
    ));
    let broken = SignalMessage { minor: None, ..pause("force") };
    assert!(matches!(
        session.handle_signals(&vec![BusItem::Signal(broken)], 0),
        Err(Error::UnexpectedMethodReturn)
    ));
}

#[test]
fn devices_are_taken_and_released() {
    let session = session();
    let call = session.open(Ok(0xe280)).ok().unwrap();
    assert_eq!(call.member, "TakeDevice");
    assert!(matches!(call.args[..], [Arg::Number(226), Arg::Number(128)]));
    assert!(matches!(session.open(Err(2)), Err(Error::FailedToStatDevice(2))));
    assert_eq!(session.close(Ok(0xe280)).ok().unwrap().member, "ReleaseDevice");
    assert!(matches!(session.close(Err(2)), Err(Error::FailedToStatDevice(2))));
    assert_eq!(session.release().member, "ReleaseControl");
    let switch = change_vt(4);
    assert_eq!(switch.path, "/org/freedesktop/login1/seat/self");
    assert!(matches!(switch.args[..], [Arg::Number(4)]));
    assert_eq!(opened(Some(3)).ok(), Some(3));
    assert!(matches!(opened(None), Err(Error::UnexpectedMethodReturn)));
    assert!(matches!(lookup::<u8>(None), Err(Error::SessionLost)));
    assert_eq!(lookup(Some(1)).ok(), Some(1));
    assert!(is_active(Some(true)) && !is_active(None) && !is_active(Some(false)));
    assert_eq!(Error::SessionLost.as_errno(), None);
    let call = || MethodCall {
        path: "/p".to_string(),
        interface: "i".to_string(),
        member: "m".to_string(),
        args: Vec::new(),
    };
    assert!(blocking_call(call(), CallOutcome::Replied).is_ok());
    assert!(matches!(
        blocking_call(call(), CallOutcome::NotSent),
        Err(Error::FailedToSendDbusCall(_))
    ));
    assert!(matches!(
        blocking_call(call(), CallOutcome::Refused),
        Err(Error::DbusCallFailed(_))
    ));
}

#[test]
fn the_bus_is_watched() {
    let watch = |fd, readable, writable| WatchFd { fd, readable, writable };
    let sources = logind_session_bind(&vec![
        watch(1, true, true),
        watch(2, false, false),
        watch(3, false, true),
        watch(4, true, false),
    ]);
    assert_eq!(sources, vec![(1, Interest::Both), (3, Interest::Write), (4, Interest::Read)]);
    assert_eq!(watch_flags(true, true), Some(3));
    assert_eq!(watch_flags(true, false), Some(1));
    assert_eq!(watch_flags(false, true), Some(2));
    assert_eq!(watch_flags(false, false), None);
}

#[test]
fn the_event_loop_follows_the_watch() {
    let mut connection = DBusConnection::new();
    let first = Watch { fd: 4, read: true, write: false };
    assert_eq!(connection.unregister(), None);
    assert_eq!(
        connection.register(first),
        Ok(vec![PollAction::Register(4, Interest::Read)])
    );
    connection.registered(first);
    assert_eq!(connection.register(first), Err(AlreadyRegistered));
    let other = Watch { fd: 5, read: true, write: true };
    assert_eq!(
        connection.reregister(other),
        vec![PollAction::Unregister(4), PollAction::Register(5, Interest::Both)]
    );
    assert_eq!(
        connection.reregister(Watch { fd: 4, read: false, write: true }),
        vec![PollAction::Reregister(4, Interest::Write)]
    );
    assert_eq!(
        connection.reregister(Watch { fd: 4, read: false, write: false }),
        vec![PollAction::Unregister(4)]
    );
    assert_eq!(connection.unregister(), Some(PollAction::Unregister(4)));
    connection.unregistered();
    assert_eq!(connection, DBusConnection::new());
}

#[test]
fn the_seat_knows_its_devices() {
    let mut session = LibSeatSessionImpl::new(Some(SeatEvent::Enable));
    assert!(session.active);
    assert!(!LibSeatSessionImpl::new(Some(SeatEvent::Disable)).active);
    assert!(!LibSeatSessionImpl::new(None).active);
    assert_eq!(session.opened(Ok((3, 40))), Ok(40));
    assert_eq!(session.opened(Ok((4, 41))), Ok(41));
    assert_eq!(session.device(40), Some(3));
    assert_eq!(session.device(9), None);
    assert_eq!(session.opened(Err(2)), Err(SeatError::FailedToOpenDevice(2)));
    assert_eq!(session.opened(Err(123456)), Err(SeatError::FailedToOpenDevice(0)));
    assert_eq!(session.process_event(SeatEvent::Disable), (true, Signal::PauseSession));
    assert!(!session.active);
    assert_eq!(session.process_event(SeatEvent::Enable), (false, Signal::ActivateSession));
    assert!(session.active);
}

#[test]
fn the_seat_has_errors() {
    assert_eq!(
        LibSeatSessionImpl::closed(Some(Err(2))),
        Err(SeatError::FailedToCloseDevice(2))
    );
    assert_eq!(LibSeatSessionImpl::closed(Some(Ok(()))), Ok(()));
    assert_eq!(LibSeatSessionImpl::closed(None), Ok(()));
    assert_eq!(LibSeatSessionImpl::vt_changed(Err(2)), Err(SeatError::FailedToChangeVt(2)));
    assert_eq!(LibSeatSessionImpl::vt_changed(Ok(())), Ok(()));
    assert_eq!(LibSeatSessionImpl::check_open(false), Err(SeatError::SessionLost));
    assert_eq!(LibSeatSessionImpl::check_open(true), Ok(()));
    assert_eq!(Request::OpenSession.error_with(5), SeatError::FailedToOpenSession(5));
    assert_eq!(SeatError::FailedToOpenSession(5).as_errno(), Some(5));
    assert_eq!(SeatError::SessionLost.as_errno(), None);
}

#[test]
fn the_best_interface_is_tried_first() {
    let all = Available { libseat: true, logind: true };
    assert_eq!(next_session(&all, None), Some(SessionKind::LibSeat));
    assert_eq!(next_session(&all, Some(SessionKind::LibSeat)), Some(SessionKind::Logind));
    assert_eq!(next_session(&all, Some(SessionKind::Logind)), Some(SessionKind::Direct));
    assert_eq!(next_session(&all, Some(SessionKind::Direct)), None);
    let few = Available { libseat: false, logind: false };
    assert_eq!(next_session(&few, None), Some(SessionKind::Direct));
    assert!(matches!(AutoError::from(Error::SessionLost), AutoError::Logind(_)));
    assert!(matches!(AutoError::from(SeatError::SessionLost), AutoError::LibSeat(_)));
    assert!(matches!(AutoError::from(NixError::Other), AutoError::Nix(_)));
    let direct = AutoError::from(DirectError::NotRunningFromTTY);
    assert!(matches!(direct, AutoError::Direct(_)));
    assert_eq!(direct.as_errno(), None);
}

struct Holder(u8);

impl AsSessionObserver<Mailbox> for Holder {
    fn observer(&mut self) -> Mailbox {
        self.0 += 1;
        Mailbox::new()
    }
}

#[test]
fn something_with_an_observer() {
    let mut holder = Holder(0);
    assert!(holder.observer().notifications.is_empty());
    assert_eq!(holder.0, 1);
}

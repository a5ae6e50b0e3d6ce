//! Sessions on the virtual terminals of the kernel.
//!
//! The terminal is switched to graphics, the keyboard is turned off, and a signal is asked for
//! whenever the terminal is to be switched. All of this is undone when the session ends.

use vstd::prelude::*;

use nix::sys::stat::{major, minor};

use crate::utils::device_number::{spec_major, spec_minor};
use crate::utils::text::same_text;

use super::{AsErrno, Signal};

verus! {

/// The mode of a terminal that shows text.
pub const KD_TEXT: i16 = 0x00;

/// The mode of a terminal that shows graphics.
pub const KD_GRAPHICS: i16 = 0x01;

/// The keyboard mode in which no keys arrive at the terminal.
pub const K_OFF: i32 = 0x04;

pub const VT_AUTO: i8 = 0x00;

pub const VT_PROCESS: i8 = 0x01;

/// The argument that acknowledges that the terminal was acquired.
pub const VT_ACKACQ: i32 = 0x02;

/// The number of the signal for a switch of the terminal.
pub const SIGUSR2: i16 = 12;

/// The major number of terminals.
pub const TTY_MAJOR: u64 = 4;

/// How switches of a terminal are handled.
#[derive(Clone, Copy, Debug, PartialEq, Eq, Structural)]
pub struct VtMode {
    /// Whether a process is asked.
    pub mode: i8,
    /// If set, writes hang while the terminal is not active.
    pub waitv: i8,
    /// The signal for a request to release the terminal.
    pub relsig: i16,
    /// The signal for the acquisition of the terminal.
    pub acqsig: i16,
    /// Unused.
    pub frsig: i16,
}

impl Default for VtMode {
    fn default() -> (mode: VtMode)
        ensures
            mode == (VtMode { mode: 0, waitv: 0, relsig: 0, acqsig: 0, frsig: 0 }),
    {
        VtMode { mode: 0, waitv: 0, relsig: 0, acqsig: 0, frsig: 0 }
    }
}

/// Why a session could not be started. The numbers are that of the terminal and of the error.
#[derive(Debug)]
pub enum Error {
    /// The terminal at the path could not be opened.
    FailedToOpenTTY(String, i32),
    /// Not running from a terminal.
    NotRunningFromTTY,
    /// The terminal shows graphics already.
    TTYAlreadyInGraphicsMode,
    FailedToActivateTTY(i32, i32),
    FailedToWaitForTTY(i32, i32),
    FailedToSaveTTYState(i32, i32),
    FailedToSetTTYKbMode(i32, i32),
    FailedToSetTTYMode(i32, i32),
    FailedToTakeControlOfTTY(i32, i32),
}

/// An error of the system.
#[derive(Clone, Copy, Debug, PartialEq, Eq, Structural)]
pub enum NixError {
    Sys(i32),
    Other,
}

impl AsErrno for NixError {
    open spec fn spec_as_errno(&self) -> Option<i32> {
        match self {
            NixError::Sys(errno) => Some(*errno),
            NixError::Other => None,
        }
    }

    fn as_errno(&self) -> (errno: Option<i32>) {
        match *self {
            NixError::Sys(errno) => Some(errno),
            NixError::Other => None,
        }
    }
}

/// What is known of the device at the path that the terminal was opened by.
#[derive(Debug)]
pub enum TtyPath {
    /// There is no path, or no device is known there.
    Unknown,
    /// The device has no subsystem.
    NoSubsystem,
    Subsystem(String),
}

/// Whether a device is a terminal, by its subsystem or else by its number; devices with a minor
/// number count as well.
pub fn is_tty_device(dev: u64, path: &TtyPath) -> (r: bool)
    ensures
        r == ((match path {
            TtyPath::Subsystem(name) => name@ == "tty"@,
            _ => spec_major(dev) == TTY_MAJOR,
        }) || spec_minor(dev) != 0),
{
    let by_kind: bool = match path {
        TtyPath::Subsystem(name) => same_text(name, "tty"),
        _ => major(dev) == TTY_MAJOR,
    };
    by_kind || minor(dev) != 0
}

/// What is to be done next with the terminal.
#[derive(Clone, Copy, Debug, PartialEq, Eq, Structural)]
pub enum TtyAction {
    /// The numbers of the device are asked for.
    Stat,
    /// The mode of the terminal is asked for.
    GetMode,
    Activate(i32),
    WaitActive(i32),
    /// The mode of the keyboard is asked for.
    GetKeyboardMode,
    SetKeyboardMode(i32),
    SetMode(i32),
    SetVtMode(VtMode),
    Close,
}

/// How far the terminal is set up.
#[derive(Clone, Copy, Debug, PartialEq, Eq, Structural)]
pub enum TtySetup {
    Start,
    Found { vt: i32 },
    InTextMode { vt: i32 },
    Activated { vt: i32 },
    Shown { vt: i32 },
    Saved { vt: i32, old_keyboard_mode: i32 },
    Muted { vt: i32, old_keyboard_mode: i32 },
    InGraphicsMode { vt: i32, old_keyboard_mode: i32 },
    Ready { vt: i32, old_keyboard_mode: i32 },
}

/// What a step gave.
#[derive(Clone, Copy, Debug, PartialEq, Eq, Structural)]
pub enum TtyEvent {
    /// The numbers of the file's device and of the device that the file is.
    Stat { dev: u64, rdev: u64 },
    Mode(i16),
    KeyboardMode(i32),
    Done,
    Failed(i32),
}

impl TtySetup {
    pub open spec fn spec_action(self) -> Option<TtyAction> {
        match self {
            TtySetup::Start => Some(TtyAction::Stat),
            TtySetup::Found { .. } => Some(TtyAction::GetMode),
            TtySetup::InTextMode { vt } => Some(TtyAction::Activate(vt)),
            TtySetup::Activated { vt } => Some(TtyAction::WaitActive(vt)),
            TtySetup::Shown { .. } => Some(TtyAction::GetKeyboardMode),
            TtySetup::Saved { .. } => Some(TtyAction::SetKeyboardMode(K_OFF)),
            TtySetup::Muted { .. } => Some(TtyAction::SetMode(KD_GRAPHICS as i32)),
            TtySetup::InGraphicsMode { .. } => Some(
                TtyAction::SetVtMode(
                    VtMode {
                        mode: VT_PROCESS,
                        waitv: 0,
                        relsig: SIGUSR2,
                        acqsig: SIGUSR2,
                        frsig: 0,
                    },
                ),
            ),
            TtySetup::Ready { .. } => None,
        }
    }

    /// Whether the event answers what is done in this state.
    pub open spec fn expects(self, event: TtyEvent) -> bool {
        event is Failed || match self {
            TtySetup::Start => event is Stat,
            TtySetup::Found { .. } => event is Mode,
            TtySetup::Shown { .. } => event is KeyboardMode,
            _ => event is Done,
        }
    }

    pub open spec fn advanced(self, path: TtyPath, event: TtyEvent) -> Result<TtySetup, Error> {
        match (self, event) {
            (TtySetup::Start, TtyEvent::Stat { dev, rdev }) => if (match path {
                TtyPath::Subsystem(name) => name@ == "tty"@,
                _ => spec_major(dev) == TTY_MAJOR,
            }) || spec_minor(dev) != 0 {
                Ok(TtySetup::Found { vt: spec_minor(rdev) as i32 })
            } else {
                Err(Error::NotRunningFromTTY)
            },
            (TtySetup::Start, _) => Err(Error::NotRunningFromTTY),
            (TtySetup::Found { vt }, TtyEvent::Mode(mode)) => if mode == KD_TEXT {
                Ok(TtySetup::InTextMode { vt })
            } else {
                Err(Error::TTYAlreadyInGraphicsMode)
            },
            (TtySetup::Found { .. }, _) => Err(Error::NotRunningFromTTY),
            (TtySetup::InTextMode { vt }, TtyEvent::Failed(e)) => Err(
                Error::FailedToActivateTTY(vt, e),
            ),
            (TtySetup::InTextMode { vt }, _) => Ok(TtySetup::Activated { vt }),
            (TtySetup::Activated { vt }, TtyEvent::Failed(e)) => Err(
                Error::FailedToWaitForTTY(vt, e),
            ),
            (TtySetup::Activated { vt }, _) => Ok(TtySetup::Shown { vt }),
            (TtySetup::Shown { vt }, TtyEvent::KeyboardMode(old_keyboard_mode)) => Ok(
                TtySetup::Saved { vt, old_keyboard_mode },
            ),
            (TtySetup::Shown { vt }, TtyEvent::Failed(e)) => Err(
                Error::FailedToSaveTTYState(vt, e),
            ),
            (TtySetup::Shown { vt }, _) => Err(Error::FailedToSaveTTYState(vt, 0)),
            (TtySetup::Saved { vt, .. }, TtyEvent::Failed(e)) => Err(
                Error::FailedToSetTTYKbMode(vt, e),
            ),
            (TtySetup::Saved { vt, old_keyboard_mode }, _) => Ok(
                TtySetup::Muted { vt, old_keyboard_mode },
            ),
            (TtySetup::Muted { vt, .. }, TtyEvent::Failed(e)) => Err(
                Error::FailedToSetTTYMode(vt, e),
            ),
            (TtySetup::Muted { vt, old_keyboard_mode }, _) => Ok(
                TtySetup::InGraphicsMode { vt, old_keyboard_mode },
            ),
            (TtySetup::InGraphicsMode { vt, .. }, TtyEvent::Failed(e)) => Err(
                Error::FailedToTakeControlOfTTY(vt, e),
            ),
            (TtySetup::InGraphicsMode { vt, old_keyboard_mode }, _) => Ok(
                TtySetup::Ready { vt, old_keyboard_mode },
            ),
            (TtySetup::Ready { vt, old_keyboard_mode }, _) => Ok(
                TtySetup::Ready { vt, old_keyboard_mode },
            ),
        }
    }

    /// How many of the steps are done.
    pub open spec fn progress(self) -> int {
        match self {
            TtySetup::Start => 0,
            TtySetup::Found { .. } => 1,
            TtySetup::InTextMode { .. } => 2,
            TtySetup::Activated { .. } => 3,
            TtySetup::Shown { .. } => 4,
            TtySetup::Saved { .. } => 5,
            TtySetup::Muted { .. } => 6,
            TtySetup::InGraphicsMode { .. } => 7,
            TtySetup::Ready { .. } => 8,
        }
    }

    /// What is to be done next; nothing once the terminal is set up.
    pub fn next_action(&self) -> (action: Option<TtyAction>)
        ensures
            action == self.spec_action(),
    {
        match *self {
            TtySetup::Start => Some(TtyAction::Stat),
            TtySetup::Found { .. } => Some(TtyAction::GetMode),
            TtySetup::InTextMode { vt } => Some(TtyAction::Activate(vt)),
            TtySetup::Activated { vt } => Some(TtyAction::WaitActive(vt)),
            TtySetup::Shown { .. } => Some(TtyAction::GetKeyboardMode),
            TtySetup::Saved { .. } => Some(TtyAction::SetKeyboardMode(K_OFF)),
            TtySetup::Muted { .. } => Some(TtyAction::SetMode(KD_GRAPHICS as i32)),
            TtySetup::InGraphicsMode { .. } => {
                let mut mode = VtMode::default();
                mode.mode = VT_PROCESS;
                mode.relsig = SIGUSR2;
                mode.acqsig = SIGUSR2;
                Some(TtyAction::SetVtMode(mode))
            },
            TtySetup::Ready { .. } => None,
        }
    }

    /// Takes what a step gave.
    pub fn advance(self, path: &TtyPath, event: TtyEvent) -> (r: Result<TtySetup, Error>)
        requires
            self.expects(event),
        ensures
            r == self.advanced(*path, event),
    {
        match (self, event) {
            (TtySetup::Start, TtyEvent::Stat { dev, rdev }) => if is_tty_device(dev, path) {
                Ok(TtySetup::Found { vt: minor(rdev) as i32 })
            } else {
                Err(Error::NotRunningFromTTY)
            },
            (TtySetup::Start, _) => Err(Error::NotRunningFromTTY),
            (TtySetup::Found { vt }, TtyEvent::Mode(mode)) => if mode == KD_TEXT {
                Ok(TtySetup::InTextMode { vt })
            } else {
                Err(Error::TTYAlreadyInGraphicsMode)
            },
            (TtySetup::Found { .. }, _) => Err(Error::NotRunningFromTTY),
            (TtySetup::InTextMode { vt }, TtyEvent::Failed(e)) => Err(
                Error::FailedToActivateTTY(vt, e),
            ),
            (TtySetup::InTextMode { vt }, _) => Ok(TtySetup::Activated { vt }),
            (TtySetup::Activated { vt }, TtyEvent::Failed(e)) => Err(
                Error::FailedToWaitForTTY(vt, e),
            ),
            (TtySetup::Activated { vt }, _) => Ok(TtySetup::Shown { vt }),
            (TtySetup::Shown { vt }, TtyEvent::KeyboardMode(old_keyboard_mode)) => Ok(
                TtySetup::Saved { vt, old_keyboard_mode },
            ),
            (TtySetup::Shown { vt }, TtyEvent::Failed(e)) => Err(
                Error::FailedToSaveTTYState(vt, e),
            ),
            (TtySetup::Shown { vt }, _) => Err(Error::FailedToSaveTTYState(vt, 0)),
            (TtySetup::Saved { vt, .. }, TtyEvent::Failed(e)) => Err(
                Error::FailedToSetTTYKbMode(vt, e),
            ),
            (TtySetup::Saved { vt, old_keyboard_mode }, _) => Ok(
                TtySetup::Muted { vt, old_keyboard_mode },
            ),
            (TtySetup::Muted { vt, .. }, TtyEvent::Failed(e)) => Err(
                Error::FailedToSetTTYMode(vt, e),
            ),
            (TtySetup::Muted { vt, old_keyboard_mode }, _) => Ok(
                TtySetup::InGraphicsMode { vt, old_keyboard_mode },
            ),
            (TtySetup::InGraphicsMode { vt, .. }, TtyEvent::Failed(e)) => Err(
                Error::FailedToTakeControlOfTTY(vt, e),
            ),
            (TtySetup::InGraphicsMode { vt, old_keyboard_mode }, _) => Ok(
                TtySetup::Ready { vt, old_keyboard_mode },
            ),
            (TtySetup::Ready { vt, old_keyboard_mode }, _) => Ok(
                TtySetup::Ready { vt, old_keyboard_mode },
            ),
        }
    }
}

/// Every step that succeeds makes progress, keeps the number of the terminal once it is known,
/// and keeps the mode of the keyboard once it is saved.
pub proof fn setup_makes_progress(setup: TtySetup, path: TtyPath, event: TtyEvent)
    requires
        setup.expects(event),
    ensures
        setup.advanced(path, event) matches Ok(next) ==> {
            &&& setup !is Ready ==> next.progress() == setup.progress() + 1
            &&& setup matches TtySetup::Saved { vt, old_keyboard_mode } ==> next
                == (TtySetup::Muted { vt, old_keyboard_mode })
            &&& setup matches TtySetup::InGraphicsMode { vt, old_keyboard_mode } ==> next
                == (TtySetup::Ready { vt, old_keyboard_mode })
        },
        setup !is Ready && event is Failed ==> setup.advanced(path, event) is Err,
{
}

/// A terminal that a session has set to show graphics is refused to other sessions, until its
/// mode is that of text again.
pub proof fn terminal_in_use_is_refused(first: TtySetup, second: TtySetup, path: TtyPath)
    requires
        first is Muted,
        second is Found,
    ensures
        first.spec_action() matches Some(TtyAction::SetMode(mode)) && second.advanced(
            path,
            TtyEvent::Mode(mode as i16),
        ) == Err::<TtySetup, Error>(Error::TTYAlreadyInGraphicsMode),
        second.advanced(path, TtyEvent::Mode(KD_TEXT)) is Ok,
{
}

/// A session on a virtual terminal.
#[derive(Clone, Copy, Debug, PartialEq, Eq, Structural)]
pub struct DirectSession {
    /// The file descriptor of the terminal.
    pub tty: i32,
    pub active: bool,
    pub vt: i32,
    pub old_keyboard_mode: i32,
}

/// How a terminal was opened.
#[derive(Debug)]
pub enum TtySource {
    Path(String),
    Stdin,
}

impl TtySource {
    pub open spec fn spec_name(self) -> Seq<char> {
        match self {
            TtySource::Path(path) => path@,
            TtySource::Stdin => "<stdin>"@,
        }
    }
}

impl DirectSession {
    /// The file descriptor of a terminal that was to be opened.
    pub fn opened(source: TtySource, outcome: Result<i32, i32>) -> (r: Result<i32, Error>)
        ensures
            match outcome {
                Ok(fd) => r == Ok::<i32, Error>(fd),
                Err(e) => r matches Err(Error::FailedToOpenTTY(name, code)) && name@
                    == source.spec_name() && code == e,
            },
    {
        match outcome {
            Ok(fd) => Ok(fd),
            Err(e) => match source {
                TtySource::Path(path) => Err(Error::FailedToOpenTTY(path, e)),
                TtySource::Stdin => Err(Error::FailedToOpenTTY("<stdin>".to_owned(), e)),
            },
        }
    }

    /// The session on a terminal that is set up; it starts active.
    pub fn from_setup(tty: i32, setup: &TtySetup) -> (session: DirectSession)
        requires
            setup is Ready,
        ensures
            session.tty == tty,
            session.active,
            *setup == (TtySetup::Ready {
                vt: session.vt,
                old_keyboard_mode: session.old_keyboard_mode,
            }),
    {
        match *setup {
            TtySetup::Ready { vt, old_keyboard_mode } => DirectSession {
                tty,
                active: true,
                vt,
                old_keyboard_mode,
            },
            _ => DirectSession { tty, active: true, vt: 0, old_keyboard_mode: 0 },
        }
    }

    /// The number of the virtual terminal.
    pub fn vt(&self) -> (vt: i32)
        ensures
            vt == self.vt,
    {
        self.vt
    }

    /// Whether the session is active.
    pub fn is_active(&self) -> (active: bool)
        ensures
            active == self.active,
    {
        self.active
    }

    /// The seat of the session: terminals exist on one seat only.
    pub fn seat(&self) -> (seat: String)
        ensures
            seat@ == "seat0"@,
    {
        "seat0".to_owned()
    }

    /// What is done to switch to another terminal.
    pub fn change_vt(&self, vt_num: i32) -> (action: TtyAction)
        ensures
            action == TtyAction::Activate(vt_num),
    {
        TtyAction::Activate(vt_num)
    }

    /// What is done at the end of the session; each step is taken even if another one fails.
    pub fn restore(&self) -> (actions: Vec<TtyAction>)
        ensures
            actions@ == seq![
                TtyAction::SetKeyboardMode(self.old_keyboard_mode),
                TtyAction::SetMode(KD_TEXT as i32),
                TtyAction::SetVtMode(
                    VtMode { mode: VT_AUTO, waitv: 0, relsig: 0, acqsig: 0, frsig: 0 },
                ),
                TtyAction::Close,
            ],
    {
        let mut mode = VtMode::default();
        mode.mode = VT_AUTO;
        let actions: Vec<TtyAction> = vec![
            TtyAction::SetKeyboardMode(self.old_keyboard_mode),
            TtyAction::SetMode(KD_TEXT as i32),
            TtyAction::SetVtMode(mode),
            TtyAction::Close,
        ];
        assert(actions@ =~= seq![
            TtyAction::SetKeyboardMode(self.old_keyboard_mode),
            TtyAction::SetMode(KD_TEXT as i32),
            TtyAction::SetVtMode(mode),
            TtyAction::Close,
        ]);
        actions
    }
}

/// What is done when the terminal is switched, in order.
#[derive(Clone, Copy, Debug, PartialEq, Eq, Structural)]
pub enum SwitchStep {
    /// The observers are told.
    Tell(Signal),
    /// The terminal is released or its acquisition acknowledged.
    ReleaseDisplay(i32),
}

/// Why a notifier could not be put into an event loop or be taken out of it.
#[derive(Clone, Copy, Debug, PartialEq, Eq, Structural)]
pub enum RegisterError {
    AlreadyExists,
    NotFound,
}

/// Whoever waits for the signal of a session.
#[derive(Clone, Copy, Debug, PartialEq, Eq, Structural)]
pub struct DirectSessionNotifier {
    pub tty: i32,
    pub active: bool,
    pub signal: i16,
    /// Whether the notifier is in an event loop.
    pub registered: bool,
}

impl DirectSessionNotifier {
    /// The notifier of a session.
    pub fn from_session(session: &DirectSession) -> (notifier: DirectSessionNotifier)
        ensures
            notifier == (DirectSessionNotifier {
                tty: session.tty,
                active: session.active,
                signal: SIGUSR2,
                registered: false,
            }),
    {
        DirectSessionNotifier {
            tty: session.tty,
            active: session.active,
            signal: SIGUSR2,
            registered: false,
        }
    }

    /// The notifier after the signal, and what is done.
    pub open spec fn switched(self) -> (DirectSessionNotifier, (SwitchStep, SwitchStep)) {
        (
            DirectSessionNotifier { active: !self.active, ..self },
            if self.active {
                (SwitchStep::Tell(Signal::PauseSession), SwitchStep::ReleaseDisplay(1))
            } else {
                (
                    SwitchStep::ReleaseDisplay(VT_ACKACQ),
                    SwitchStep::Tell(Signal::ActivateSession),
                )
            },
        )
    }

    /// The signal came: an active session becomes inactive and releases the terminal, an
    /// inactive one takes it and becomes active.
    pub fn signal_received(&mut self) -> (steps: (SwitchStep, SwitchStep))
        ensures
            (*final(self), steps) == old(self).switched(),
            *final(self) == (DirectSessionNotifier { active: !old(self).active, ..*old(self) }),
            steps == (if old(self).active {
                (SwitchStep::Tell(Signal::PauseSession), SwitchStep::ReleaseDisplay(1))
            } else {
                (
                    SwitchStep::ReleaseDisplay(VT_ACKACQ),
                    SwitchStep::Tell(Signal::ActivateSession),
                )
            }),
    {
        if self.active {
            self.active = false;
            (SwitchStep::Tell(Signal::PauseSession), SwitchStep::ReleaseDisplay(1))
        } else {
            self.active = true;
            (SwitchStep::ReleaseDisplay(VT_ACKACQ), SwitchStep::Tell(Signal::ActivateSession))
        }
    }

    /// Whether the notifier can be put into an event loop: only into one.
    pub fn check_register(&self) -> (r: Result<(), RegisterError>)
        ensures
            r == (if self.registered {
                Err::<(), RegisterError>(RegisterError::AlreadyExists)
            } else {
                Ok(())
            }),
    {
        if self.registered {
            Err(RegisterError::AlreadyExists)
        } else {
            Ok(())
        }
    }

    /// The notifier was put into an event loop.
    pub fn registered(&mut self)
        ensures
            *final(self) == (DirectSessionNotifier { registered: true, ..*old(self) }),
    {
        self.registered = true;
    }

    /// Whether the notifier is in an event loop, as it has to be to be registered anew.
    pub fn check_reregister(&self) -> (r: Result<(), RegisterError>)
        ensures
            r == (if self.registered {
                Ok::<(), RegisterError>(())
            } else {
                Err(RegisterError::NotFound)
            }),
    {
        if self.registered {
            Ok(())
        } else {
            Err(RegisterError::NotFound)
        }
    }

    /// Takes the notifier out of its event loop.
    pub fn unregister(&mut self) -> (r: Result<(), RegisterError>)
        ensures
            *final(self) == (DirectSessionNotifier { registered: false, ..*old(self) }),
            r == (if old(self).registered {
                Ok::<(), RegisterError>(())
            } else {
                Err(RegisterError::NotFound)
            }),
    {
        if self.registered {
            self.registered = false;
            Ok(())
        } else {
            Err(RegisterError::NotFound)
        }
    }
}

/// A terminal that was set up: how far it was before each step and at the end, and what each step
/// gave.
pub open spec fn was_set_up(
    states: Seq<TtySetup>,
    events: Seq<TtyEvent>,
    path: TtyPath,
) -> bool {
    &&& states.len() == events.len() + 1
    &&& states[0] is Start
    &&& states.last() is Ready
    &&& forall|i: int|
        0 <= i < events.len() ==> {
            &&& !((#[trigger] states[i]) is Ready)
            &&& states[i].expects(events[i])
            &&& states[i].advanced(path, events[i]) == Ok::<TtySetup, Error>(states[i + 1])
        }
}

/// A terminal is set up in this order: it is looked up and has to show text; it is switched to, and
/// its switch waited for; the mode of the keyboard is saved and the keyboard turned off; graphics
/// are turned on; and a signal is asked for whenever the terminal is to be released or acquired.
pub proof fn terminal_is_set_up_in_order(
    states: Seq<TtySetup>,
    events: Seq<TtyEvent>,
    path: TtyPath,
)
    requires
        was_set_up(states, events, path),
    ensures
        events.len() == 8,
        events[0] is Stat && events[1] == TtyEvent::Mode(0) && events[4] is KeyboardMode,
        ({
            let vt = spec_minor(events[0]->rdev) as i32;
            let keyboard = events[4]->KeyboardMode_0;
            &&& states[0].spec_action() == Some(TtyAction::Stat)
            &&& states[1].spec_action() == Some(TtyAction::GetMode)
            &&& states[2].spec_action() == Some(TtyAction::Activate(vt))
            &&& states[3].spec_action() == Some(TtyAction::WaitActive(vt))
            &&& states[4].spec_action() == Some(TtyAction::GetKeyboardMode)
            &&& states[5].spec_action() == Some(TtyAction::SetKeyboardMode(4))
            &&& states[6].spec_action() == Some(TtyAction::SetMode(1))
            &&& states[7].spec_action() == Some(
                TtyAction::SetVtMode(
                    (VtMode { mode: 1, waitv: 0, relsig: 12, acqsig: 12, frsig: 0 }),
                ),
            )
            &&& states[8] == (TtySetup::Ready { vt, old_keyboard_mode: keyboard })
            &&& states[8].spec_action() is None
        }),
{
    assert(states[0].expects(events[0]));
    assert(states[1] is Found);
    assert(states[1].expects(events[1]));
    assert(states[2] is InTextMode);
    assert(states[2].expects(events[2]));
    assert(states[3] is Activated);
    assert(states[3].expects(events[3]));
    assert(states[4] is Shown);
    assert(states[4].expects(events[4]));
    assert(states[5] is Saved);
    assert(states[5].expects(events[5]));
    assert(states[6] is Muted);
    assert(states[6].expects(events[6]));
    assert(states[7] is InGraphicsMode);
    assert(states[7].expects(events[7]));
    assert(states[8] is Ready);
    if events.len() > 8 {
        assert(!(states[8] is Ready));
    }
}

/// A step that fails ends the set-up with the error of that step, which holds the number of the
/// terminal and of the error; what cannot be looked up is no terminal.
pub proof fn failed_step_names_its_error(setup: TtySetup, path: TtyPath, code: i32)
    requires
        !(setup is Ready),
    ensures
        ({
            let r = setup.advanced(path, TtyEvent::Failed(code));
            r is Err && match setup.spec_action()->0 {
                TtyAction::Stat | TtyAction::GetMode => r->Err_0 is NotRunningFromTTY,
                TtyAction::Activate(vt) => r->Err_0 == Error::FailedToActivateTTY(vt, code),
                TtyAction::WaitActive(vt) => r->Err_0 == Error::FailedToWaitForTTY(vt, code),
                TtyAction::GetKeyboardMode => r->Err_0 == Error::FailedToSaveTTYState(
                    setup->Shown_vt,
                    code,
                ),
                TtyAction::SetKeyboardMode(_) => r->Err_0 == Error::FailedToSetTTYKbMode(
                    setup->Saved_vt,
                    code,
                ),
                TtyAction::SetMode(_) => r->Err_0 == Error::FailedToSetTTYMode(
                    setup->Muted_vt,
                    code,
                ),
                TtyAction::SetVtMode(_) => r->Err_0 == Error::FailedToTakeControlOfTTY(
                    setup->InGraphicsMode_vt,
                    code,
                ),
                TtyAction::Close => false,
            }
        }),
{
}

/// A device is taken for a terminal exactly if it has a minor number, or if its subsystem is that of
/// terminals, or, where the subsystem is not known, if it has the major number of terminals.
pub proof fn terminals_are_recognised(dev: u64, path: TtyPath, r: bool)
    requires
        call_ensures(is_tty_device, (dev, &path), r),
    ensures
        spec_minor(dev) != 0 ==> r,
        spec_minor(dev) == 0 && path is Subsystem ==> (r <==> path->Subsystem_0@ == "tty"@),
        spec_minor(dev) == 0 && !(path is Subsystem) ==> (r <==> spec_major(dev) == 4),
{
}

/// At the end of a session everything that its set-up changed is undone: the keyboard has the mode
/// that it had, the terminal shows text so that another session can be started on it, and no signal
/// is sent any more. Then the terminal is closed.
pub proof fn session_is_undone(
    tty: i32,
    setup: TtySetup,
    session: DirectSession,
    actions: Vec<TtyAction>,
    other: TtySetup,
    path: TtyPath,
)
    requires
        setup is Ready,
        other is Found,
        call_ensures(DirectSession::from_setup, (tty, &setup), session),
        call_ensures(DirectSession::restore, (&session,), actions),
    ensures
        session.tty == tty,
        session.active,
        session.vt == setup->Ready_vt,
        actions@.len() == 4,
        actions@[0] == TtyAction::SetKeyboardMode(setup->Ready_old_keyboard_mode),
        actions@[1] is SetMode && other.advanced(
            path,
            TtyEvent::Mode(actions@[1]->SetMode_0 as i16),
        ) is Ok,
        actions@[1] == TtyAction::SetMode(0),
        actions@[2] == TtyAction::SetVtMode(
            (VtMode { mode: 0, waitv: 0, relsig: 0, acqsig: 0, frsig: 0 }),
        ),
        actions@[3] is Close,
{
}

/// An active session first tells its observers to pause and then lets the terminal go; an inactive
/// one first takes the terminal and then tells them to go on. Two signals lead back to where it was.
pub proof fn observers_draw_only_on_their_terminal(notifier: DirectSessionNotifier)
    ensures
        ({
            let (after, steps) = notifier.switched();
            &&& after.active <==> !notifier.active
            &&& after.switched().0 == notifier
            &&& notifier.active ==> steps.0 == SwitchStep::Tell(Signal::PauseSession) && steps.1
                == SwitchStep::ReleaseDisplay(1)
            &&& !notifier.active ==> steps.0 == SwitchStep::ReleaseDisplay(2) && steps.1
                == SwitchStep::Tell(Signal::ActivateSession)
        }),
{
}

} // verus!

//! The steps by which a window gets its context, its surface and its renderer.

use vstd::prelude::*;

use super::{WinitEvent, WinitEventLoop, WinitEventLoopInner, WinitGraphicsBackend};

verus! {

/// Why a window could not be set up.
#[derive(Clone, Copy, Debug, PartialEq, Eq, Structural)]
pub enum Error {
    EventLoopCreation(i32),
    WindowCreation(i32),
    /// The surface of the window could not be taken over.
    Surface(i32),
    /// Contexts are not supported on the window system.
    NotSupported,
    Egl(i32),
    RendererCreationError(i32),
}

/// The window system that a window is on, as far as it is supported.
#[derive(Clone, Copy, Debug, PartialEq, Eq, Structural)]
pub enum WindowSystem {
    Wayland,
    Xlib,
}

/// What is to be done next.
#[derive(Clone, Copy, Debug, PartialEq, Eq, Structural)]
pub enum SetupAction {
    CreateEventLoop,
    /// Events are waited for and handled.
    PumpEvents,
    /// The window system is asked for.
    FindSystem,
    CreateDisplay,
    /// A context is created, with ten or else with eight bits for each color.
    CreateContext { ten_bit: bool },
    /// A surface of EGL is made of the one of the window.
    WrapSurface,
    CreateSurface(WindowSystem),
    CreateRenderer,
}

/// What a step gave.
#[derive(Clone, Copy, Debug, PartialEq, Eq, Structural)]
pub enum SetupEvent {
    Done,
    System(WindowSystem),
    Failed(i32),
}

/// How far a window is set up.
#[derive(Clone, Copy, Debug, PartialEq, Eq, Structural)]
pub enum SetupStage {
    Start,
    Waiting,
    Opened,
    Placed { system: WindowSystem },
    Shown { system: WindowSystem },
    /// A context with ten bits could not be had.
    Reduced { system: WindowSystem },
    InContext { system: WindowSystem },
    Wrapped,
    OnSurface { system: WindowSystem },
    Ready { system: WindowSystem },
}

/// A window that is being set up.
#[derive(Debug)]
pub struct WinitSetup {
    pub stage: SetupStage,
    pub inner: WinitEventLoopInner,
    pub initial_events: Vec<WinitEvent>,
}

/// The stage after a step.
pub open spec fn next_stage(
    stage: SetupStage,
    inner: WinitEventLoopInner,
    event: SetupEvent,
) -> Result<SetupStage, Error> {
    match (stage, event) {
        (SetupStage::Start, SetupEvent::Failed(code)) => Err(Error::EventLoopCreation(code)),
        (SetupStage::Start, _) => Ok(SetupStage::Waiting),
        (SetupStage::Waiting, _) => match inner.window_create_error {
            Some(code) => Err(Error::WindowCreation(code)),
            None => Ok(
                if inner.window {
                    SetupStage::Opened
                } else {
                    SetupStage::Waiting
                },
            ),
        },
        (SetupStage::Opened, SetupEvent::System(system)) => Ok(SetupStage::Placed { system }),
        (SetupStage::Opened, _) => Err(Error::NotSupported),
        (SetupStage::Placed { .. }, SetupEvent::Failed(code)) => Err(Error::Egl(code)),
        (SetupStage::Placed { system }, _) => Ok(SetupStage::Shown { system }),
        (SetupStage::Shown { system }, SetupEvent::Failed(_)) => Ok(SetupStage::Reduced { system }),
        (SetupStage::Shown { system }, _) => Ok(SetupStage::InContext { system }),
        (SetupStage::Reduced { .. }, SetupEvent::Failed(code)) => Err(Error::Egl(code)),
        (SetupStage::Reduced { system }, _) => Ok(SetupStage::InContext { system }),
        (SetupStage::InContext { system: WindowSystem::Wayland }, SetupEvent::Failed(code)) => Err(
            Error::Surface(code),
        ),
        (SetupStage::InContext { system: WindowSystem::Wayland }, _) => Ok(SetupStage::Wrapped),
        (SetupStage::InContext { .. }, SetupEvent::Failed(code)) => Err(Error::Egl(code)),
        (SetupStage::InContext { system }, _) => Ok(SetupStage::OnSurface { system }),
        (SetupStage::Wrapped, SetupEvent::Failed(code)) => Err(Error::Egl(code)),
        (SetupStage::Wrapped, _) => Ok(SetupStage::OnSurface { system: WindowSystem::Wayland }),
        (SetupStage::OnSurface { .. }, SetupEvent::Failed(code)) => Err(
            Error::RendererCreationError(code),
        ),
        (SetupStage::OnSurface { system }, _) => Ok(SetupStage::Ready { system }),
        (SetupStage::Ready { system }, _) => Ok(SetupStage::Ready { system }),
    }
}

impl WinitSetup {
    /// Starts to set up a window.
    pub fn new(inner: WinitEventLoopInner) -> (setup: WinitSetup)
        ensures
            setup.stage == SetupStage::Start,
            setup.inner == inner,
            setup.initial_events@ == Seq::<WinitEvent>::empty(),
    {
        WinitSetup { stage: SetupStage::Start, inner, initial_events: Vec::new() }
    }

    pub open spec fn spec_action(stage: SetupStage) -> Option<SetupAction> {
        match stage {
            SetupStage::Start => Some(SetupAction::CreateEventLoop),
            SetupStage::Waiting => Some(SetupAction::PumpEvents),
            SetupStage::Opened => Some(SetupAction::FindSystem),
            SetupStage::Placed { .. } => Some(SetupAction::CreateDisplay),
            SetupStage::Shown { .. } => Some(SetupAction::CreateContext { ten_bit: true }),
            SetupStage::Reduced { .. } => Some(SetupAction::CreateContext { ten_bit: false }),
            SetupStage::InContext { system: WindowSystem::Wayland } => Some(
                SetupAction::WrapSurface,
            ),
            SetupStage::InContext { system } => Some(SetupAction::CreateSurface(system)),
            SetupStage::Wrapped => Some(SetupAction::CreateSurface(WindowSystem::Wayland)),
            SetupStage::OnSurface { .. } => Some(SetupAction::CreateRenderer),
            SetupStage::Ready { .. } => None,
        }
    }

    /// What is to be done next; nothing once the window is set up.
    pub fn next_action(&self) -> (action: Option<SetupAction>)
        ensures
            action == WinitSetup::spec_action(self.stage),
    {
        match self.stage {
            SetupStage::Start => Some(SetupAction::CreateEventLoop),
            SetupStage::Waiting => Some(SetupAction::PumpEvents),
            SetupStage::Opened => Some(SetupAction::FindSystem),
            SetupStage::Placed { .. } => Some(SetupAction::CreateDisplay),
            SetupStage::Shown { .. } => Some(SetupAction::CreateContext { ten_bit: true }),
            SetupStage::Reduced { .. } => Some(SetupAction::CreateContext { ten_bit: false }),
            SetupStage::InContext { system: WindowSystem::Wayland } => Some(
                SetupAction::WrapSurface,
            ),
            SetupStage::InContext { system } => Some(SetupAction::CreateSurface(system)),
            SetupStage::Wrapped => Some(SetupAction::CreateSurface(WindowSystem::Wayland)),
            SetupStage::OnSurface { .. } => Some(SetupAction::CreateRenderer),
            SetupStage::Ready { .. } => None,
        }
    }

    /// An event came while the window is set up; it is kept until the first time that events
    /// are asked for.
    pub fn received(&mut self, event: WinitEvent)
        ensures
            final(self).stage == old(self).stage,
            final(self).inner == old(self).inner,
            final(self).initial_events@ == old(self).initial_events@.push(event),
    {
        self.initial_events.push(event);
    }

    /// Takes what a step gave. A window that is on no known window system is not supported.
    pub fn advance(&mut self, event: SetupEvent) -> (r: Result<(), Error>)
        ensures
            final(self).initial_events == old(self).initial_events,
            match next_stage(old(self).stage, old(self).inner, event) {
                Err(error) => {
                    &&& r == Err::<(), Error>(error)
                    &&& final(self).stage == old(self).stage
                    &&& final(self).inner == old(self).inner
                },
                Ok(stage) => {
                    &&& r == Ok::<(), Error>(())
                    &&& final(self).stage == stage
                    &&& final(self).inner == (match stage {
                        SetupStage::Placed { system } => WinitEventLoopInner {
                            is_x11: system == WindowSystem::Xlib,
                            ..old(self).inner
                        },
                        _ => old(self).inner,
                    })
                },
            },
    {
        let next: SetupStage = match (self.stage, event) {
            (SetupStage::Start, SetupEvent::Failed(code)) => {
                return Err(Error::EventLoopCreation(code));
            },
            (SetupStage::Start, _) => SetupStage::Waiting,
            (SetupStage::Waiting, _) => {
                if let Some(code) = self.inner.window_create_error {
                    return Err(Error::WindowCreation(code));
                }
                if self.inner.window {
                    SetupStage::Opened
                } else {
                    SetupStage::Waiting
                }
            },
            (SetupStage::Opened, SetupEvent::System(system)) => {
                self.inner.is_x11 = system == WindowSystem::Xlib;
                SetupStage::Placed { system }
            },
            (SetupStage::Opened, _) => {
                return Err(Error::NotSupported);
            },
            (SetupStage::Shown { system }, SetupEvent::Failed(_)) => SetupStage::Reduced { system },
            (SetupStage::InContext { system: WindowSystem::Wayland }, SetupEvent::Failed(code)) => {
                return Err(Error::Surface(code));
            },
            (SetupStage::OnSurface { .. }, SetupEvent::Failed(code)) => {
                return Err(Error::RendererCreationError(code));
            },
            (SetupStage::Ready { system }, _) => SetupStage::Ready { system },
            (_, SetupEvent::Failed(code)) => {
                return Err(Error::Egl(code));
            },
            (SetupStage::Placed { system }, _) => SetupStage::Shown { system },
            (SetupStage::Shown { system }, _) => SetupStage::InContext { system },
            (SetupStage::Reduced { system }, _) => SetupStage::InContext { system },
            (SetupStage::InContext { system: WindowSystem::Wayland }, _) => SetupStage::Wrapped,
            (SetupStage::InContext { system }, _) => SetupStage::OnSurface { system },
            (SetupStage::Wrapped, _) => SetupStage::OnSurface { system: WindowSystem::Wayland },
            (SetupStage::OnSurface { system }, _) => SetupStage::Ready { system },
        };
        self.stage = next;
        Ok(())
    }

    /// The window and its event loop; `damage_tracking` is whether the display takes damage.
    pub fn finish(self, damage_tracking: bool) -> (r: (
        WinitGraphicsBackend,
        WinitEventLoop,
        WinitEventLoopInner,
    ))
        requires
            self.stage is Ready,
        ensures
            r.0 == (WinitGraphicsBackend { damage_tracking, bind_size: None }),
            r.1.initial_events@ == self.initial_events@,
            r.1.pending_events@ == Seq::<WinitEvent>::empty(),
            r.1.fake_token is None,
            r.2 == self.inner,
    {
        (
            WinitGraphicsBackend::new(damage_tracking),
            WinitEventLoop::new(self.initial_events),
            self.inner,
        )
    }
}

/// The steps that are left at most, apart from waiting for the window.
pub open spec fn steps_left(stage: SetupStage) -> int {
    match stage {
        SetupStage::Start => 9,
        SetupStage::Waiting => 8,
        SetupStage::Opened => 7,
        SetupStage::Placed { .. } => 6,
        SetupStage::Shown { .. } => 5,
        SetupStage::Reduced { .. } => 4,
        SetupStage::InContext { .. } => 3,
        SetupStage::Wrapped => 2,
        SetupStage::OnSurface { .. } => 1,
        SetupStage::Ready { .. } => 0,
    }
}

/// Every step but waiting for the window makes progress; a failure ends the setup, unless a
/// lesser context can still be tried.
pub proof fn setup_gets_done(stage: SetupStage, inner: WinitEventLoopInner, event: SetupEvent)
    ensures
        next_stage(stage, inner, event) matches Ok(next) ==> stage is Ready || steps_left(next)
            < steps_left(stage) || (stage is Waiting && next is Waiting && !inner.window),
        event is Failed && !(stage is Shown || stage is Waiting || stage is Ready) ==> next_stage(
            stage,
            inner,
            event,
        ) is Err,
{
}

/// The steps of the set-up follow each other: the event loop, events until the window is there, the
/// window system, the display, a context with ten bits or failing that with eight, on Wayland the
/// surface of the window, then a surface on that same window system, and the renderer.
pub proof fn window_is_set_up_in_order(
    stage: SetupStage,
    inner: WinitEventLoopInner,
    event: SetupEvent,
)
    requires
        !(stage is Ready),
        next_stage(stage, inner, event) is Ok,
    ensures
        ({
            let after = next_stage(stage, inner, event)->Ok_0;
            let next = WinitSetup::spec_action(after);
            match WinitSetup::spec_action(stage)->0 {
                SetupAction::CreateEventLoop => next == Some(SetupAction::PumpEvents),
                SetupAction::PumpEvents => {
                    &&& inner.window_create_error is None
                    &&& inner.window ==> next == Some(SetupAction::FindSystem)
                    &&& !inner.window ==> next == Some(SetupAction::PumpEvents)
                },
                SetupAction::FindSystem => event matches SetupEvent::System(system) && next == Some(
                    SetupAction::CreateDisplay,
                ) && after == (SetupStage::Placed { system }),
                SetupAction::CreateDisplay => next == Some(
                    SetupAction::CreateContext { ten_bit: true },
                ) && after->Shown_system == stage->Placed_system,
                SetupAction::CreateContext { ten_bit } => {
                    let system = if ten_bit {
                        stage->Shown_system
                    } else {
                        stage->Reduced_system
                    };
                    &&& event is Failed ==> ten_bit && next == Some(
                        SetupAction::CreateContext { ten_bit: false },
                    ) && after->Reduced_system == system
                    &&& !(event is Failed) && system is Wayland ==> next == Some(
                        SetupAction::WrapSurface,
                    )
                    &&& !(event is Failed) && system is Xlib ==> next == Some(
                        SetupAction::CreateSurface(WindowSystem::Xlib),
                    )
                },
                SetupAction::WrapSurface => next == Some(
                    SetupAction::CreateSurface(WindowSystem::Wayland),
                ),
                SetupAction::CreateSurface(_) => next == Some(SetupAction::CreateRenderer),
                SetupAction::CreateRenderer => next is None && after is Ready,
            }
        }),
{
}

/// A step of the set-up that fails ends it with the error of that step, but for a context with ten
/// bits; so does a window that could not be created.
pub proof fn failed_step_names_its_error(
    stage: SetupStage,
    inner: WinitEventLoopInner,
    code: i32,
)
    requires
        !(stage is Ready),
    ensures
        ({
            let r = next_stage(stage, inner, SetupEvent::Failed(code));
            match WinitSetup::spec_action(stage)->0 {
                SetupAction::CreateEventLoop => r == Err::<SetupStage, Error>(
                    Error::EventLoopCreation(code),
                ),
                SetupAction::PumpEvents => inner.window_create_error matches Some(error) ==> r
                    == Err::<SetupStage, Error>(Error::WindowCreation(error)),
                SetupAction::FindSystem => r == Err::<SetupStage, Error>(Error::NotSupported),
                SetupAction::CreateContext { ten_bit: true } => r is Ok,
                SetupAction::CreateDisplay
                | SetupAction::CreateContext { ten_bit: false }
                | SetupAction::CreateSurface(_) => r == Err::<SetupStage, Error>(Error::Egl(code)),
                SetupAction::WrapSurface => r == Err::<SetupStage, Error>(Error::Surface(code)),
                SetupAction::CreateRenderer => r == Err::<SetupStage, Error>(
                    Error::RendererCreationError(code),
                ),
            }
        }),
{
}

} // verus!

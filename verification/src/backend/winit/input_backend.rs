//! Input that is fetched from a window until it is closed.

use vstd::prelude::*;

use crate::backend::input::FloatBits;
use crate::utils::geometry::Size;

use super::input::{
    ElementState, InputEvent, MouseButton, MouseScrollDelta, Position, WinitKeyboardInputEvent,
    WinitMouseInputEvent, WinitMouseMovedEvent, WinitMouseWheelEvent, WinitTouchCancelledEvent,
    WinitTouchEndedEvent, WinitTouchMovedEvent, WinitTouchStartedEvent, WinitVirtualDevice,
};
use super::{count_key, counted, WinitEvent};

verus! {

/// Why there is no more input.
#[derive(Clone, Copy, Debug, PartialEq, Eq, Hash, Structural)]
pub enum WinitInputError {
    /// The window was closed.
    WindowClosed,
}

/// The measures of a window.
#[derive(Clone, Copy, Debug, PartialEq, Eq, Structural)]
pub struct WindowSize {
    pub physical_size: Size,
    pub scale_factor: FloatBits,
}

/// How a touch goes on.
#[derive(Clone, Copy, Debug, PartialEq, Eq, Structural)]
pub enum TouchPhase {
    Started,
    Moved,
    Ended,
    Cancelled,
}

/// What the window tells. Positions come in pixels and in units that do not depend on the
/// scale.
#[derive(Clone, Copy, Debug, PartialEq, Eq, Structural)]
pub enum LoopEvent {
    RedrawRequested,
    Resized { size: Size, scale_factor: FloatBits },
    ScaleFactorChanged { size: Size, scale_factor: FloatBits },
    Focused(bool),
    KeyboardInput { scancode: u32, state: ElementState },
    CursorMoved { position: Position, logical: Position },
    MouseWheel(MouseScrollDelta),
    MouseInput { state: ElementState, button: MouseButton },
    Touch { phase: TouchPhase, position: Position, logical: Position, id: u64 },
    CloseRequested,
    Destroyed,
    Other,
}

/// The time since the start in milliseconds, which wraps around.
pub fn milliseconds(secs: u64, subsec_nanos: u32) -> (time: u32)
    requires
        1000 * secs + subsec_nanos / 1_000_000 <= u64::MAX,
    ensures
        time == (1000 * secs + subsec_nanos / 1_000_000) as u64 as u32,
{
    let nanos: u64 = subsec_nanos as u64;
    ((1000 * secs) + (nanos / 1_000_000)) as u32
}

/// A window and its input.
#[derive(Clone, Copy, Debug, PartialEq, Eq, Structural)]
pub struct WinitInputBackend {
    /// Whether the device was announced.
    pub initialized: bool,
    pub key_counter: u32,
    pub size: WindowSize,
    /// The size that the surface has yet to get.
    pub resize_notification: Option<Size>,
    /// Whether the window was closed.
    pub closed: bool,
}

impl WinitInputBackend {
    /// The input of a window of some size.
    pub fn new(size: WindowSize) -> (backend: WinitInputBackend)
        ensures
            backend == (WinitInputBackend {
                initialized: false,
                key_counter: 0,
                size,
                resize_notification: None,
                closed: false,
            }),
    {
        WinitInputBackend {
            initialized: false,
            key_counter: 0,
            size,
            resize_notification: None,
            closed: false,
        }
    }

    /// The state when input is about to be fetched, and what is told.
    pub open spec fn begun(self) -> (WinitInputBackend, Option<InputEvent>) {
        (
            WinitInputBackend { initialized: true, closed: false, ..self },
            if self.initialized {
                None
            } else {
                Some(InputEvent::DeviceAdded(WinitVirtualDevice))
            },
        )
    }

    /// The state once the size was handed out, and that size.
    pub open spec fn measured(self) -> (WinitInputBackend, (Option<Size>, Size)) {
        (
            WinitInputBackend { resize_notification: None, ..self },
            (self.resize_notification, self.size.physical_size),
        )
    }

    /// Input is about to be fetched. The first time, the device is announced.
    pub fn begin_dispatch(&mut self) -> (event: Option<InputEvent>)
        ensures
            (*final(self), event) == old(self).begun(),
            *final(self) == (WinitInputBackend { initialized: true, closed: false, ..*old(self) }),
            event == (if old(self).initialized {
                None
            } else {
                Some(InputEvent::DeviceAdded(WinitVirtualDevice))
            }),
    {
        let known: bool = self.initialized;
        self.initialized = true;
        self.closed = false;
        if known {
            None
        } else {
            Some(InputEvent::DeviceAdded(WinitVirtualDevice))
        }
    }

    pub open spec fn after(self, event: LoopEvent) -> WinitInputBackend {
        match event {
            LoopEvent::Resized { size, scale_factor } => WinitInputBackend {
                size: WindowSize { physical_size: size, scale_factor },
                resize_notification: Some(size),
                ..self
            },
            LoopEvent::ScaleFactorChanged { size, scale_factor } => WinitInputBackend {
                size: WindowSize { physical_size: self.size.physical_size, scale_factor },
                resize_notification: Some(size),
                ..self
            },
            LoopEvent::KeyboardInput { state, .. } => WinitInputBackend {
                key_counter: counted(self.key_counter, state) as u32,
                ..self
            },
            LoopEvent::CloseRequested | LoopEvent::Destroyed => WinitInputBackend {
                closed: true,
                ..self
            },
            _ => self,
        }
    }

    pub open spec fn told(self, event: LoopEvent, time: u64) -> Seq<WinitEvent> {
        match event {
            LoopEvent::RedrawRequested => seq![WinitEvent::Redraw],
            LoopEvent::Resized { size, scale_factor } => seq![
                WinitEvent::Resized { size, scale_factor },
            ],
            LoopEvent::ScaleFactorChanged { size, scale_factor } => seq![
                WinitEvent::Resized { size, scale_factor },
            ],
            LoopEvent::Focused(focused) => seq![WinitEvent::Focus(focused)],
            LoopEvent::KeyboardInput { scancode, state } => seq![
                WinitEvent::Input(
                    InputEvent::Keyboard(
                        WinitKeyboardInputEvent {
                            time,
                            key: scancode,
                            count: counted(self.key_counter, state) as u32,
                            state,
                        },
                    ),
                ),
            ],
            LoopEvent::CursorMoved { position, logical } => seq![
                WinitEvent::Input(
                    InputEvent::PointerMotionAbsolute(
                        WinitMouseMovedEvent { time, position: logical, global_position: position },
                    ),
                ),
            ],
            LoopEvent::MouseWheel(delta) => seq![
                WinitEvent::Input(InputEvent::PointerAxis(WinitMouseWheelEvent { time, delta })),
            ],
            LoopEvent::MouseInput { state, button } => seq![
                WinitEvent::Input(
                    InputEvent::PointerButton(
                        WinitMouseInputEvent { time, button, state, is_x11: false },
                    ),
                ),
            ],
            LoopEvent::Touch { phase, position, logical, id } => {
                let moved = WinitEvent::Input(
                    InputEvent::TouchMotion(
                        WinitTouchMovedEvent {
                            time,
                            position: logical,
                            global_position: position,
                            id,
                        },
                    ),
                );
                match phase {
                    TouchPhase::Started => seq![
                        WinitEvent::Input(
                            InputEvent::TouchDown(
                                WinitTouchStartedEvent {
                                    time,
                                    position: logical,
                                    global_position: position,
                                    id,
                                },
                            ),
                        ),
                    ],
                    TouchPhase::Moved => seq![moved],
                    TouchPhase::Ended => seq![
                        moved,
                        WinitEvent::Input(InputEvent::TouchUp(WinitTouchEndedEvent { time, id })),
                    ],
                    TouchPhase::Cancelled => seq![
                        WinitEvent::Input(
                            InputEvent::TouchCancel(WinitTouchCancelledEvent { time, id }),
                        ),
                    ],
                }
            },
            LoopEvent::CloseRequested | LoopEvent::Destroyed => seq![
                WinitEvent::Input(InputEvent::DeviceRemoved(WinitVirtualDevice)),
            ],
            LoopEvent::Other => seq![],
        }
    }

    /// Handles what the window tells at a time.
    pub fn handle_event(&mut self, event: LoopEvent, time: u64) -> (events: Vec<WinitEvent>)
        requires
            event matches LoopEvent::KeyboardInput { state, .. } ==> counted(
                old(self).key_counter,
                state,
            ) <= u32::MAX,
        ensures
            *final(self) == old(self).after(event),
            events@ == old(self).told(event, time),
    {
        let mut events: Vec<WinitEvent> = Vec::new();
        match event {
            LoopEvent::RedrawRequested => {
                events.push(WinitEvent::Redraw);
            },
            LoopEvent::Resized { size, scale_factor } => {
                self.size = WindowSize { physical_size: size, scale_factor };
                self.resize_notification = Some(size);
                events.push(WinitEvent::Resized { size, scale_factor });
            },
            LoopEvent::ScaleFactorChanged { size, scale_factor } => {
                self.size = WindowSize { physical_size: self.size.physical_size, scale_factor };
                self.resize_notification = Some(size);
                events.push(WinitEvent::Resized { size, scale_factor });
            },
            LoopEvent::Focused(focused) => {
                events.push(WinitEvent::Focus(focused));
            },
            LoopEvent::KeyboardInput { scancode, state } => {
                self.key_counter = count_key(self.key_counter, state);
                events.push(
                    WinitEvent::Input(
                        InputEvent::Keyboard(
                            WinitKeyboardInputEvent {
                                time,
                                key: scancode,
                                count: self.key_counter,
                                state,
                            },
                        ),
                    ),
                );
            },
            LoopEvent::CursorMoved { position, logical } => {
                events.push(
                    WinitEvent::Input(
                        InputEvent::PointerMotionAbsolute(
                            WinitMouseMovedEvent {
                                time,
                                position: logical,
                                global_position: position,
                            },
                        ),
                    ),
                );
            },
            LoopEvent::MouseWheel(delta) => {
                events.push(
                    WinitEvent::Input(
                        InputEvent::PointerAxis(WinitMouseWheelEvent { time, delta }),
                    ),
                );
            },
            LoopEvent::MouseInput { state, button } => {
                events.push(
                    WinitEvent::Input(
                        InputEvent::PointerButton(
                            WinitMouseInputEvent { time, button, state, is_x11: false },
                        ),
                    ),
                );
            },
            LoopEvent::Touch { phase, position, logical, id } => {
                let moved = WinitEvent::Input(
                    InputEvent::TouchMotion(
                        WinitTouchMovedEvent {
                            time,
                            position: logical,
                            global_position: position,
                            id,
                        },
                    ),
                );
                match phase {
                    TouchPhase::Started => {
                        events.push(
                            WinitEvent::Input(
                                InputEvent::TouchDown(
                                    WinitTouchStartedEvent {
                                        time,
                                        position: logical,
                                        global_position: position,
                                        id,
                                    },
                                ),
                            ),
                        );
                    },
                    TouchPhase::Moved => {
                        events.push(moved);
                    },
                    TouchPhase::Ended => {
                        events.push(moved);
                        events.push(
                            WinitEvent::Input(
                                InputEvent::TouchUp(WinitTouchEndedEvent { time, id }),
                            ),
                        );
                    },
                    TouchPhase::Cancelled => {
                        events.push(
                            WinitEvent::Input(
                                InputEvent::TouchCancel(WinitTouchCancelledEvent { time, id }),
                            ),
                        );
                    },
                }
            },
            LoopEvent::CloseRequested | LoopEvent::Destroyed => {
                self.closed = true;
                events.push(WinitEvent::Input(InputEvent::DeviceRemoved(WinitVirtualDevice)));
            },
            LoopEvent::Other => {},
        }
        assert(events@ =~= old(self).told(event, time));
        events
    }

    /// Everything was fetched. A window that was closed meanwhile gives no more input.
    pub fn end_dispatch(&self) -> (r: Result<(), WinitInputError>)
        ensures
            r == (if self.closed {
                Err::<(), WinitInputError>(WinitInputError::WindowClosed)
            } else {
                Ok(())
            }),
    {
        if self.closed {
            Err(WinitInputError::WindowClosed)
        } else {
            Ok(())
        }
    }

    /// The size that the surface gets before it is drawn to, if it changed, and the size that is
    /// drawn.
    pub fn render_size(&mut self) -> (r: (Option<Size>, Size))
        ensures
            (*final(self), r) == old(self).measured(),
            r == (old(self).resize_notification, old(self).size.physical_size),
            *final(self) == (WinitInputBackend { resize_notification: None, ..*old(self) }),
    {
        let resize: Option<Size> = self.resize_notification;
        self.resize_notification = None;
        (resize, self.size.physical_size)
    }
}

/// The number of a button that has no name, which is cut to a byte.
pub fn other_button(num: u16) -> (r: u8)
    ensures
        r == num as u8,
{
    num as u8
}

/// A window is closed only by what closes it, and stays closed until input is fetched anew.
pub proof fn closed_until_next_dispatch(backend: WinitInputBackend, event: LoopEvent)
    ensures
        backend.after(event).closed <==> backend.closed || event is CloseRequested
            || event is Destroyed,
{
}

} // verus!

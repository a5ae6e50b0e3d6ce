//! The state of the connection to another compositor.

use vstd::prelude::*;

use crate::backend::input::{ButtonState, DeviceCapability, FloatBits, KeyState};

use super::input::{
    AxisScroll, InputEvent, WaylandKeyboardKeyEvent, WaylandPointerAxisEvent,
    WaylandPointerButtonEvent, WaylandPointerMotionEvent, WaylandVirtualDevice, WlAxisSource,
};
use super::window::{Data, WindowId, WindowSize};
use super::{AllocateBuffersError, WaylandError, WaylandEvent};

verus! {

/// What a seat has.
#[derive(Clone, Copy, Debug, PartialEq, Eq, Structural)]
pub enum Capability {
    Keyboard,
    Pointer,
    Touch,
}

/// The windows that have the focus.
#[derive(Clone, Copy, Debug, PartialEq, Eq, Structural)]
pub struct WindowFocus {
    pub keyboard: Option<WindowId>,
    pub pointer: Option<WindowId>,
}

/// A window, with its surface.
#[derive(Clone, Copy, Debug, PartialEq, Eq, Structural)]
pub struct WindowEntry {
    pub id: WindowId,
    pub surface: u64,
    /// Whether the window still exists.
    pub alive: bool,
}

/// What the pointer did.
#[derive(Clone, Copy, Debug, PartialEq, Eq, Structural)]
pub enum PointerEventKind {
    Enter,
    Leave,
    Motion { time: u32 },
    Press { time: u32, button: u32 },
    Release { time: u32, button: u32 },
    Axis { time: u32, horizontal: AxisScroll, vertical: AxisScroll, source: Option<WlAxisSource> },
}

/// What the pointer did, and where.
#[derive(Clone, Copy, Debug, PartialEq, Eq, Structural)]
pub struct PointerEvent {
    pub surface: u64,
    pub x: FloatBits,
    pub y: FloatBits,
    pub kind: PointerEventKind,
}

/// The first window that exists and has the surface, or the length if there is none.
pub open spec fn window_position(windows: Seq<WindowEntry>, surface: u64) -> int
    decreases windows.len(),
{
    if windows.len() == 0 {
        0
    } else if windows.first().alive && windows.first().surface == surface {
        0
    } else {
        1 + window_position(windows.drop_first(), surface)
    }
}

/// The window that is found exists and has the surface.
pub proof fn window_position_finds(windows: Seq<WindowEntry>, surface: u64)
    ensures
        0 <= window_position(windows, surface) <= windows.len(),
        window_position(windows, surface) < windows.len() ==> windows[window_position(
            windows,
            surface,
        )].alive && windows[window_position(windows, surface)].surface == surface,
    decreases windows.len(),
{
    if windows.len() > 0 && !(windows.first().alive && windows.first().surface == surface) {
        window_position_finds(windows.drop_first(), surface);
    }
}

/// The id of the window with a surface.
pub open spec fn window_id(windows: Seq<WindowEntry>, surface: u64) -> Option<WindowId> {
    let at = window_position(windows, surface);
    if at < windows.len() {
        Some(windows[at].id)
    } else {
        None
    }
}

/// The windows that exist.
pub open spec fn living(windows: Seq<WindowEntry>) -> Seq<WindowEntry>
    decreases windows.len(),
{
    if windows.len() == 0 {
        Seq::empty()
    } else if windows.last().alive {
        living(windows.drop_last()).push(windows.last())
    } else {
        living(windows.drop_last())
    }
}

/// What is recorded of something that the pointer did over a window.
pub open spec fn pointer_record(
    event: PointerEvent,
    device: WaylandVirtualDevice,
    window: WindowId,
) -> Option<WaylandEvent> {
    match event.kind {
        PointerEventKind::Enter | PointerEventKind::Leave => None,
        PointerEventKind::Motion { time } => Some(
            WaylandEvent::Input(
                InputEvent::PointerMotionAbsolute(
                    WaylandPointerMotionEvent { time, x: event.x, y: event.y, window, device },
                ),
            ),
        ),
        PointerEventKind::Press { time, button } => Some(
            WaylandEvent::Input(
                InputEvent::PointerButton(
                    WaylandPointerButtonEvent {
                        button,
                        time,
                        state: ButtonState::Pressed,
                        window,
                        device,
                    },
                ),
            ),
        ),
        PointerEventKind::Release { time, button } => Some(
            WaylandEvent::Input(
                InputEvent::PointerButton(
                    WaylandPointerButtonEvent {
                        button,
                        time,
                        state: ButtonState::Released,
                        window,
                        device,
                    },
                ),
            ),
        ),
        PointerEventKind::Axis { time, horizontal, vertical, source } => Some(
            WaylandEvent::Input(
                InputEvent::PointerAxis(
                    WaylandPointerAxisEvent { device, vertical, horizontal, source, time, window },
                ),
            ),
        ),
    }
}

/// The window under the pointer after something that it did.
pub open spec fn pointer_focus(
    focus: Option<WindowId>,
    windows: Seq<WindowEntry>,
    event: PointerEvent,
) -> Option<WindowId> {
    match event.kind {
        PointerEventKind::Enter => match window_id(windows, event.surface) {
            Some(id) => Some(id),
            None => focus,
        },
        PointerEventKind::Leave => None,
        _ => focus,
    }
}

/// The window under the pointer after all that it did, and what is recorded of it.
pub open spec fn pointer_run(
    focus: Option<WindowId>,
    windows: Seq<WindowEntry>,
    device: WaylandVirtualDevice,
    events: Seq<PointerEvent>,
) -> (Option<WindowId>, Seq<WaylandEvent>)
    decreases events.len(),
{
    if events.len() == 0 {
        (focus, Seq::empty())
    } else {
        let (before, recorded) = pointer_run(focus, windows, device, events.drop_last());
        let event = events.last();
        (
            pointer_focus(before, windows, event),
            match before {
                Some(window) => match pointer_record(event, device, window) {
                    Some(record) => recorded.push(record),
                    None => recorded,
                },
                None => recorded,
            },
        )
    }
}

/// The state of the connection.
#[derive(Debug)]
pub struct WaylandBackendData {
    pub seat: Option<u64>,
    pub pointer: Option<WaylandVirtualDevice>,
    pub keyboard: Option<WaylandVirtualDevice>,
    /// The id of the next window.
    pub id_counter: usize,
    pub windows: Vec<WindowEntry>,
    pub focus: WindowFocus,
    /// What happened and was not handed out yet.
    pub recorded: Vec<WaylandEvent>,
}

impl WaylandBackendData {
    /// Nothing happened yet.
    pub fn new() -> (data: WaylandBackendData)
        ensures
            data.seat is None,
            data.pointer is None,
            data.keyboard is None,
            data.id_counter == 0,
            data.windows@ == Seq::<WindowEntry>::empty(),
            data.focus == (WindowFocus { keyboard: None, pointer: None }),
            data.recorded@ == Seq::<WaylandEvent>::empty(),
            data.wf(),
    {
        WaylandBackendData {
            seat: None,
            pointer: None,
            keyboard: None,
            id_counter: 0,
            windows: Vec::new(),
            focus: WindowFocus { keyboard: None, pointer: None },
            recorded: Vec::new(),
        }
    }

    /// No two windows have the same id, and no id is given out twice.
    pub open spec fn wf(self) -> bool {
        &&& forall|i: int, j: int|
            0 <= i < j < self.windows@.len() ==> (#[trigger] self.windows@[i]).id
                != (#[trigger] self.windows@[j]).id
        &&& forall|i: int|
            0 <= i < self.windows@.len() ==> (#[trigger] self.windows@[i]).id.0 < self.id_counter
    }

    pub open spec fn same_windows(self, other: WaylandBackendData) -> bool {
        self.windows == other.windows && self.id_counter == other.id_counter
    }

    pub open spec fn same_input(self, other: WaylandBackendData) -> bool {
        self.seat == other.seat && self.pointer == other.pointer && self.keyboard
            == other.keyboard && self.focus == other.focus
    }

    /// Keeps an event until it is handed out.
    pub fn record_event(&mut self, event: WaylandEvent)
        ensures
            final(self).recorded@ == old(self).recorded@.push(event),
            final(self).same_windows(*old(self)),
            final(self).same_input(*old(self)),
    {
        self.recorded.push(event);
    }

    /// Hands out the events that were kept.
    pub fn take_recorded(&mut self) -> (events: Vec<WaylandEvent>)
        ensures
            events@ == old(self).recorded@,
            final(self).recorded@ == Seq::<WaylandEvent>::empty(),
            final(self).same_windows(*old(self)),
            final(self).same_input(*old(self)),
    {
        let mut events: Vec<WaylandEvent> = Vec::new();
        events.append(&mut self.recorded);
        assert(events@ =~= old(self).recorded@);
        events
    }

    /// A window id that was not used before.
    pub fn next_window_id(&mut self) -> (id: usize)
        requires
            old(self).id_counter < usize::MAX,
        ensures
            id == old(self).id_counter,
            final(self).id_counter == id + 1,
            final(self).windows == old(self).windows,
            final(self).recorded == old(self).recorded,
            final(self).same_input(*old(self)),
    {
        let id: usize = self.id_counter;
        self.id_counter = id + 1;
        id
    }

    fn find_window(&self, surface: u64) -> (r: Option<usize>)
        ensures
            match r {
                Some(i) => i == window_position(self.windows@, surface) && i < self.windows@.len(),
                None => window_position(self.windows@, surface) == self.windows@.len(),
            },
    {
        let ghost all = self.windows@;
        assert(all.skip(0) =~= all);
        for i in 0..self.windows.len()
            invariant
                all == self.windows@,
                window_position(all, surface) == i + window_position(all.skip(i as int), surface),
        {
            assert(all.skip(i as int).first() == all[i as int]);
            assert(all.skip(i as int).drop_first() =~= all.skip(i as int + 1));
            if self.windows[i].alive && self.windows[i].surface == surface {
                return Some(i);
            }
        }
        assert(all.skip(all.len() as int) =~= Seq::<WindowEntry>::empty());
        None
    }

    /// The window with a surface.
    pub fn window_from_wl_surface(&self, surface: u64) -> (id: Option<WindowId>)
        ensures
            id == window_id(self.windows@, surface),
    {
        match self.find_window(surface) {
            Some(i) => Some(self.windows[i].id),
            None => None,
        }
    }

    /// The compositor will soon draw a surface anew.
    pub fn frame(&mut self, surface: u64)
        ensures
            final(self).same_windows(*old(self)),
            final(self).same_input(*old(self)),
            final(self).recorded@ == (match window_id(old(self).windows@, surface) {
                Some(window_id) => old(self).recorded@.push(WaylandEvent::Frame { window_id }),
                None => old(self).recorded@,
            }),
    {
        if let Some(window_id) = self.window_from_wl_surface(surface) {
            self.record_event(WaylandEvent::Frame { window_id });
        }
    }

    /// A window is asked to close.
    pub fn request_close(&mut self, surface: u64)
        ensures
            final(self).same_windows(*old(self)),
            final(self).same_input(*old(self)),
            final(self).recorded@ == (match window_id(old(self).windows@, surface) {
                Some(window_id) => old(self).recorded@.push(
                    WaylandEvent::CloseRequested { window_id },
                ),
                None => old(self).recorded@,
            }),
    {
        if let Some(window_id) = self.window_from_wl_surface(surface) {
            self.record_event(WaylandEvent::CloseRequested { window_id });
        }
    }

    /// The size that a window gets, given the one that it has, if that is another one.
    pub open spec fn resized(current: WindowSize, new_size: Option<WindowSize>) -> Option<
        WindowSize,
    > {
        let size = match new_size {
            Some(size) => size,
            None => WindowSize { w: 1280, h: 720 },
        };
        if current == size {
            None
        } else {
            Some(size)
        }
    }

    /// The compositor gives the window with a surface a size, or leaves it to the window. `data`
    /// are the buffers of that window.
    pub fn configure(&mut self, surface: u64, new_size: Option<WindowSize>, data: &mut Data)
        ensures
            match (
                window_id(old(self).windows@, surface),
                WaylandBackendData::resized(old(data).current_size, new_size),
            ) {
                (Some(window_id), Some(size)) => {
                    &&& final(data).current_size == size
                    &&& final(data).new_size == Some(size)
                    &&& final(self).recorded@.last() == (WaylandEvent::Resized {
                        new_size: size,
                        window_id,
                    })
                },
                _ => *final(data) == *old(data) && final(self).recorded@ == old(self).recorded@,
            },
            final(self).same_windows(*old(self)),
            final(self).same_input(*old(self)),
            ({
                let size = match new_size {
                    Some(size) => size,
                    None => WindowSize { w: 1280, h: 720 },
                };
                match window_id(old(self).windows@, surface) {
                    Some(window_id) if old(data).current_size != size => {
                        &&& *final(data) == (Data {
                            current_size: size,
                            new_size: Some(size),
                            ..*old(data)
                        })
                        &&& final(self).recorded@ == old(self).recorded@.push(
                            WaylandEvent::Resized { new_size: size, window_id },
                        )
                    },
                    _ => *final(data) == *old(data) && final(self).recorded@
                        == old(self).recorded@,
                }
            }),
    {
        let size: WindowSize = match new_size {
            Some(size) => size,
            None => WindowSize { w: 1280, h: 720 },
        };
        if let Some(window_id) = self.window_from_wl_surface(surface) {
            if data.configure(size) {
                self.record_event(WaylandEvent::Resized { new_size: size, window_id });
            }
        }
    }

    /// A window is gone.
    pub fn window_destroyed(&mut self, id: WindowId)
        requires
            old(self).wf(),
        ensures
            final(self).wf(),
            final(self).id_counter == old(self).id_counter,
            final(self).same_input(*old(self)),
            final(self).recorded == old(self).recorded,
            final(self).windows@.len() == old(self).windows@.len(),
            forall|i: int|
                0 <= i < final(self).windows@.len() ==> #[trigger] final(self).windows@[i]
                    == (WindowEntry {
                    alive: old(self).windows@[i].alive && old(self).windows@[i].id != id,
                    ..old(self).windows@[i]
                }),
    {
        let ghost before = self.windows@;
        let n: usize = self.windows.len();
        for i in 0..n
            invariant
                n == before.len(),
                before == old(self).windows@,
                self.windows@.len() == n,
                self.id_counter == old(self).id_counter,
                self.same_input(*old(self)),
                self.recorded == old(self).recorded,
                forall|j: int|
                    0 <= j < i ==> #[trigger] self.windows@[j] == (WindowEntry {
                        alive: before[j].alive && before[j].id != id,
                        ..before[j]
                    }),
                forall|j: int| i <= j < n ==> #[trigger] self.windows@[j] == before[j],
        {
            let window: WindowEntry = self.windows[i];
            if window.id == id {
                self.windows.set(
                    i,
                    WindowEntry {
                        id: window.id,
                        surface: window.surface,
                        alive: false,
                    },
                );
            }
        }
        proof {
            assert forall|a: int, b: int| 0 <= a < b < self.windows@.len() implies (
            #[trigger] self.windows@[a]).id != (#[trigger] self.windows@[b]).id by {
                assert(before[a].id != before[b].id);
            }
            assert forall|a: int| 0 <= a < self.windows@.len() implies (
            #[trigger] self.windows@[a]).id.0 < self.id_counter by {
                assert(before[a].id.0 < self.id_counter);
            }
        }
    }

    /// Creates a window for a surface, if there is a device that its buffers come from. Windows
    /// that are gone are forgotten first.
    pub fn create_window(&mut self, surface: u64, has_allocator: bool) -> (r: Result<
        WindowId,
        WaylandError,
    >)
        requires
            old(self).wf(),
            old(self).id_counter < usize::MAX,
        ensures
            final(self).wf(),
            final(self).same_input(*old(self)),
            final(self).recorded == old(self).recorded,
            if has_allocator {
                let id = WindowId(old(self).id_counter);
                &&& r == Ok::<WindowId, WaylandError>(id)
                &&& final(self).id_counter == old(self).id_counter + 1
                &&& final(self).windows@ == living(old(self).windows@).push(
                    WindowEntry { id, surface, alive: true },
                )
            } else {
                &&& r == Err::<WindowId, WaylandError>(
                    WaylandError::AllocateBuffers(AllocateBuffersError::Unsupported),
                )
                &&& final(self).id_counter == old(self).id_counter
                &&& final(self).windows@ == living(old(self).windows@)
            },
    {
        let ghost all = self.windows@;
        let mut kept: Vec<WindowEntry> = Vec::new();
        assert(all.take(0) =~= Seq::<WindowEntry>::empty());
        for i in 0..self.windows.len()
            invariant
                all == self.windows@,
                kept@ == living(all.take(i as int)),
        {
            assert(all.take(i as int + 1).drop_last() =~= all.take(i as int));
            if self.windows[i].alive {
                kept.push(self.windows[i]);
            }
        }
        assert(all.take(all.len() as int) =~= all);
        proof {
            assert forall|a: int, b: int| 0 <= a < b < kept@.len() implies (#[trigger] kept@[a]).id
                != (#[trigger] kept@[b]).id by {
                lemma_living_at(all, a);
                lemma_living_at(all, b);
                lemma_living_order(all, a, b);
                assert(all[living_index(all, a)].id != all[living_index(all, b)].id);
            }
            assert forall|a: int| 0 <= a < kept@.len() implies (#[trigger] kept@[a]).id.0
                < self.id_counter by {
                lemma_living_at(all, a);
                assert(all[living_index(all, a)].id.0 < self.id_counter);
            }
        }
        self.windows = kept;
        if !has_allocator {
            return Err(WaylandError::AllocateBuffers(AllocateBuffersError::Unsupported));
        }
        let id = WindowId(self.next_window_id());
        self.windows.push(
            WindowEntry { id, surface, alive: true },
        );
        Ok(id)
    }

    /// A seat appeared; the first one is used.
    pub fn new_seat(&mut self, seat: u64)
        ensures
            final(self).seat == (if old(self).seat is None {
                Some(seat)
            } else {
                old(self).seat
            }),
            final(self).pointer == old(self).pointer,
            final(self).keyboard == old(self).keyboard,
            final(self).focus == old(self).focus,
            final(self).same_windows(*old(self)),
            final(self).recorded == old(self).recorded,
    {
        if self.seat.is_none() {
            self.seat = Some(seat);
        }
    }

    fn on_seat(&self, seat: u64) -> (r: bool)
        ensures
            r == (self.seat == Some(seat)),
    {
        match self.seat {
            Some(used) => used == seat,
            None => false,
        }
    }

    /// The device that comes with a capability, if it is one of the used seat that counts.
    pub open spec fn device_for(self, seat: u64, capability: Capability) -> Option<
        WaylandVirtualDevice,
    > {
        if self.seat != Some(seat) {
            None
        } else {
            match capability {
                Capability::Keyboard => Some(
                    WaylandVirtualDevice { capability: DeviceCapability::Keyboard },
                ),
                Capability::Pointer => Some(
                    WaylandVirtualDevice { capability: DeviceCapability::Pointer },
                ),
                Capability::Touch => None,
            }
        }
    }

    /// The device that goes with a capability, if it is one of the used seat that counts.
    pub open spec fn device_without(self, seat: u64, capability: Capability) -> Option<
        WaylandVirtualDevice,
    > {
        if self.seat != Some(seat) {
            None
        } else {
            match capability {
                Capability::Keyboard => self.keyboard,
                Capability::Pointer => self.pointer,
                Capability::Touch => None,
            }
        }
    }

    /// The seat got a keyboard or a pointer.
    pub fn new_capability(&mut self, seat: u64, capability: Capability)
        ensures
            match old(self).device_for(seat, capability) {
                Some(device) => final(self).recorded@ == old(self).recorded@.push(
                    WaylandEvent::Input(InputEvent::DeviceAdded { device }),
                ),
                None => final(self).recorded@ == old(self).recorded@,
            },
            final(self).seat == old(self).seat,
            final(self).focus == old(self).focus,
            final(self).same_windows(*old(self)),
            ({
                let used = old(self).seat == Some(seat);
                let keyboard = WaylandVirtualDevice { capability: DeviceCapability::Keyboard };
                let pointer = WaylandVirtualDevice { capability: DeviceCapability::Pointer };
                &&& final(self).keyboard == (if used && capability is Keyboard {
                    Some(keyboard)
                } else {
                    old(self).keyboard
                })
                &&& final(self).pointer == (if used && capability is Pointer {
                    Some(pointer)
                } else {
                    old(self).pointer
                })
                &&& final(self).recorded@ == (if used && capability is Keyboard {
                    old(self).recorded@.push(
                        WaylandEvent::Input(InputEvent::DeviceAdded { device: keyboard }),
                    )
                } else if used && capability is Pointer {
                    old(self).recorded@.push(
                        WaylandEvent::Input(InputEvent::DeviceAdded { device: pointer }),
                    )
                } else {
                    old(self).recorded@
                })
            }),
    {
        if self.on_seat(seat) {
            match capability {
                Capability::Keyboard => {
                    let device = WaylandVirtualDevice { capability: DeviceCapability::Keyboard };
                    self.keyboard = Some(device);
                    self.record_event(WaylandEvent::Input(InputEvent::DeviceAdded { device }));
                },
                Capability::Pointer => {
                    let device = WaylandVirtualDevice { capability: DeviceCapability::Pointer };
                    self.pointer = Some(device);
                    self.record_event(WaylandEvent::Input(InputEvent::DeviceAdded { device }));
                },
                Capability::Touch => {},
            }
        }
    }

    /// The seat lost its keyboard or its pointer.
    pub fn remove_capability(&mut self, seat: u64, capability: Capability)
        requires
            old(self).seat == Some(seat) && capability is Keyboard ==> old(self).keyboard is Some,
            old(self).seat == Some(seat) && capability is Pointer ==> old(self).pointer is Some,
        ensures
            match old(self).device_without(seat, capability) {
                Some(device) => final(self).recorded@ == old(self).recorded@.push(
                    WaylandEvent::Input(InputEvent::DeviceRemoved { device }),
                ),
                None => final(self).recorded@ == old(self).recorded@,
            },
            final(self).seat == old(self).seat,
            final(self).same_windows(*old(self)),
            if old(self).seat == Some(seat) && capability is Keyboard {
                &&& final(self).keyboard is None
                &&& final(self).pointer == old(self).pointer
                &&& final(self).focus == (WindowFocus { keyboard: None, ..old(self).focus })
                &&& final(self).recorded@ == old(self).recorded@.push(
                    WaylandEvent::Input(
                        InputEvent::DeviceRemoved { device: old(self).keyboard->0 },
                    ),
                )
            } else if old(self).seat == Some(seat) && capability is Pointer {
                &&& final(self).pointer is None
                &&& final(self).keyboard == old(self).keyboard
                &&& final(self).focus == (WindowFocus { pointer: None, ..old(self).focus })
                &&& final(self).recorded@ == old(self).recorded@.push(
                    WaylandEvent::Input(
                        InputEvent::DeviceRemoved { device: old(self).pointer->0 },
                    ),
                )
            } else {
                &&& final(self).same_input(*old(self))
                &&& final(self).recorded@ == old(self).recorded@
            },
    {
        if self.on_seat(seat) {
            match capability {
                Capability::Keyboard => {
                    if let Some(device) = self.keyboard {
                        self.keyboard = None;
                        self.focus = WindowFocus { keyboard: None, pointer: self.focus.pointer };
                        self.record_event(
                            WaylandEvent::Input(InputEvent::DeviceRemoved { device }),
                        );
                    }
                },
                Capability::Pointer => {
                    if let Some(device) = self.pointer {
                        self.pointer = None;
                        self.focus = WindowFocus { keyboard: self.focus.keyboard, pointer: None };
                        self.record_event(
                            WaylandEvent::Input(InputEvent::DeviceRemoved { device }),
                        );
                    }
                },
                Capability::Touch => {},
            }
        }
    }

    /// What is recorded when the seat goes: first that the keyboard is gone, then the pointer.
    pub open spec fn devices_removed(self) -> Seq<WaylandEvent> {
        let keyboard = match self.keyboard {
            Some(device) => seq![WaylandEvent::Input(InputEvent::DeviceRemoved { device })],
            None => Seq::empty(),
        };
        let pointer = match self.pointer {
            Some(device) => seq![WaylandEvent::Input(InputEvent::DeviceRemoved { device })],
            None => Seq::empty(),
        };
        keyboard + pointer
    }

    /// The seat is gone.
    pub fn remove_seat(&mut self, seat: u64)
        ensures
            final(self).same_windows(*old(self)),
            if old(self).seat == Some(seat) {
                &&& final(self).seat is None
                &&& final(self).keyboard is None
                &&& final(self).pointer is None
                &&& final(self).focus == (WindowFocus { keyboard: None, pointer: None })
                &&& final(self).recorded@ == old(self).recorded@ + old(self).devices_removed()
            } else {
                &&& final(self).same_input(*old(self))
                &&& final(self).recorded@ == old(self).recorded@
            },
    {
        if self.on_seat(seat) {
            self.seat = None;
            self.focus = WindowFocus { keyboard: None, pointer: None };
            if let Some(device) = self.keyboard {
                self.keyboard = None;
                self.record_event(WaylandEvent::Input(InputEvent::DeviceRemoved { device }));
            }
            if let Some(device) = self.pointer {
                self.pointer = None;
                self.record_event(WaylandEvent::Input(InputEvent::DeviceRemoved { device }));
            }
            assert(self.recorded@ =~= old(self).recorded@ + old(self).devices_removed());
        }
    }

    /// The pointer did several things at once. What it does over a window takes a pointer
    /// device.
    pub fn pointer_frame(&mut self, events: &Vec<PointerEvent>)
        requires
            old(self).pointer is Some || pointer_run(
                old(self).focus.pointer,
                old(self).windows@,
                arbitrary(),
                events@,
            ).1.len() == 0,
        ensures
            final(self).same_windows(*old(self)),
            final(self).seat == old(self).seat,
            final(self).pointer == old(self).pointer,
            final(self).keyboard == old(self).keyboard,
            ({
                let device = match old(self).pointer {
                    Some(device) => device,
                    None => arbitrary(),
                };
                let (focus, recorded) = pointer_run(
                    old(self).focus.pointer,
                    old(self).windows@,
                    device,
                    events@,
                );
                &&& final(self).focus == (WindowFocus { pointer: focus, ..old(self).focus })
                &&& final(self).recorded@ == old(self).recorded@ + recorded
            }),
    {
        let ghost device = match self.pointer {
            Some(device) => device,
            None => arbitrary(),
        };
        let ghost start = self.focus.pointer;
        let ghost windows = self.windows@;
        let ghost before = self.recorded@;
        assert(events@.take(0) =~= Seq::<PointerEvent>::empty());
        assert(before + Seq::<WaylandEvent>::empty() =~= before);
        for i in 0..events.len()
            invariant
                start == old(self).focus.pointer,
                windows == old(self).windows@,
                before == old(self).recorded@,
                device == (match old(self).pointer {
                    Some(device) => device,
                    None => arbitrary(),
                }),
                old(self).pointer is Some || pointer_run(start, windows, device, events@).1.len()
                    == 0,
                self.same_windows(*old(self)),
                self.seat == old(self).seat,
                self.pointer == old(self).pointer,
                self.keyboard == old(self).keyboard,
                self.focus == (WindowFocus {
                    pointer: pointer_run(start, windows, device, events@.take(i as int)).0,
                    ..old(self).focus
                }),
                self.recorded@ == before + pointer_run(
                    start,
                    windows,
                    device,
                    events@.take(i as int),
                ).1,
        {
            proof {
                assert(events@.take(i as int + 1).drop_last() =~= events@.take(i as int));
                lemma_run_grows(start, windows, device, events@, i as int + 1);
            }
            let ghost so_far = pointer_run(start, windows, device, events@.take(i as int)).1;
            let event: PointerEvent = events[i];
            let window: Option<WindowId> = self.focus.pointer;
            let device_now: Option<WaylandVirtualDevice> = self.pointer;
            match event.kind {
                PointerEventKind::Enter => {
                    if let Some(id) = self.window_from_wl_surface(event.surface) {
                        self.focus = WindowFocus {
                            keyboard: self.focus.keyboard,
                            pointer: Some(id),
                        };
                    }
                },
                PointerEventKind::Leave => {
                    self.focus = WindowFocus { keyboard: self.focus.keyboard, pointer: None };
                },
                PointerEventKind::Motion { time } => {
                    if let (Some(window), Some(device)) = (window, device_now) {
                        self.record_event(
                            WaylandEvent::Input(
                                InputEvent::PointerMotionAbsolute(
                                    WaylandPointerMotionEvent {
                                        time,
                                        x: event.x,
                                        y: event.y,
                                        window,
                                        device,
                                    },
                                ),
                            ),
                        );
                    }
                },
                PointerEventKind::Press { time, button } => {
                    if let (Some(window), Some(device)) = (window, device_now) {
                        self.record_event(
                            WaylandEvent::Input(
                                InputEvent::PointerButton(
                                    WaylandPointerButtonEvent {
                                        button,
                                        time,
                                        state: ButtonState::Pressed,
                                        window,
                                        device,
                                    },
                                ),
                            ),
                        );
                    }
                },
                PointerEventKind::Release { time, button } => {
                    if let (Some(window), Some(device)) = (window, device_now) {
                        self.record_event(
                            WaylandEvent::Input(
                                InputEvent::PointerButton(
                                    WaylandPointerButtonEvent {
                                        button,
                                        time,
                                        state: ButtonState::Released,
                                        window,
                                        device,
                                    },
                                ),
                            ),
                        );
                    }
                },
                PointerEventKind::Axis { time, horizontal, vertical, source } => {
                    if let (Some(window), Some(device)) = (window, device_now) {
                        self.record_event(
                            WaylandEvent::Input(
                                InputEvent::PointerAxis(
                                    WaylandPointerAxisEvent {
                                        device,
                                        vertical,
                                        horizontal,
                                        source,
                                        time,
                                        window,
                                    },
                                ),
                            ),
                        );
                    }
                },
            }
            proof {
                if let Some(w) = window {
                    if let Some(record) = pointer_record(event, device, w) {
                        assert(before + so_far.push(record) =~= (before + so_far).push(record));
                    }
                }
            }
        }
        assert(events@.take(events.len() as int) =~= events@);
    }

    /// A window got the focus of the keyboard.
    pub fn keyboard_enter(&mut self, surface: u64)
        ensures
            final(self).same_windows(*old(self)),
            final(self).recorded == old(self).recorded,
            final(self).seat == old(self).seat,
            final(self).pointer == old(self).pointer,
            final(self).keyboard == old(self).keyboard,
            final(self).focus == (match window_id(old(self).windows@, surface) {
                Some(id) => WindowFocus { keyboard: Some(id), ..old(self).focus },
                None => old(self).focus,
            }),
    {
        if let Some(id) = self.window_from_wl_surface(surface) {
            self.focus = WindowFocus { keyboard: Some(id), pointer: self.focus.pointer };
        }
    }

    /// No window has the focus of the keyboard any more.
    pub fn keyboard_leave(&mut self)
        ensures
            final(self).same_windows(*old(self)),
            final(self).recorded == old(self).recorded,
            final(self).seat == old(self).seat,
            final(self).pointer == old(self).pointer,
            final(self).keyboard == old(self).keyboard,
            final(self).focus == (WindowFocus { keyboard: None, ..old(self).focus }),
    {
        self.focus = WindowFocus { keyboard: None, pointer: self.focus.pointer };
    }

    /// What is told of a key that was pressed.
    pub open spec fn told_of_press(self, key_code: u32, time: u32) -> InputEvent {
        InputEvent::Keyboard(
            WaylandKeyboardKeyEvent {
                key_code,
                state: KeyState::Pressed,
                device: self.keyboard->0,
                count: 0,
                time,
                window: self.focus.keyboard->0,
            },
        )
    }

    /// What is told of a key that was released.
    pub open spec fn told_of_release(self, key_code: u32, time: u32) -> InputEvent {
        InputEvent::Keyboard(
            WaylandKeyboardKeyEvent {
                key_code,
                state: KeyState::Released,
                device: self.keyboard->0,
                count: 0,
                time,
                window: self.focus.keyboard->0,
            },
        )
    }

    /// A key was pressed or released, which takes a keyboard and a window with its focus.
    pub fn key(&mut self, key_code: u32, time: u32, state: KeyState)
        requires
            old(self).keyboard is Some,
            old(self).focus.keyboard is Some,
        ensures
            final(self).same_windows(*old(self)),
            final(self).same_input(*old(self)),
            final(self).recorded@ == old(self).recorded@.push(
                WaylandEvent::Input(
                    InputEvent::Keyboard(
                        WaylandKeyboardKeyEvent {
                            key_code,
                            state,
                            device: old(self).keyboard->0,
                            count: 0,
                            time,
                            window: old(self).focus.keyboard->0,
                        },
                    ),
                ),
            ),
    {
        if let (Some(device), Some(window)) = (self.keyboard, self.focus.keyboard) {
            self.record_event(
                WaylandEvent::Input(
                    InputEvent::Keyboard(
                        WaylandKeyboardKeyEvent { key_code, state, device, count: 0, time, window },
                    ),
                ),
            );
        }
    }

    /// A key was pressed.
    pub fn press_key(&mut self, key_code: u32, time: u32)
        requires
            old(self).keyboard is Some,
            old(self).focus.keyboard is Some,
        ensures
            final(self).recorded@ == old(self).recorded@.push(
                WaylandEvent::Input(old(self).told_of_press(key_code, time)),
            ),
            final(self).same_windows(*old(self)),
            final(self).same_input(*old(self)),
            final(self).recorded@ == old(self).recorded@.push(
                WaylandEvent::Input(
                    InputEvent::Keyboard(
                        WaylandKeyboardKeyEvent {
                            key_code,
                            state: KeyState::Pressed,
                            device: old(self).keyboard->0,
                            count: 0,
                            time,
                            window: old(self).focus.keyboard->0,
                        },
                    ),
                ),
            ),
    {
        self.key(key_code, time, KeyState::Pressed);
    }

    /// A key was released.
    pub fn release_key(&mut self, key_code: u32, time: u32)
        requires
            old(self).keyboard is Some,
            old(self).focus.keyboard is Some,
        ensures
            final(self).recorded@ == old(self).recorded@.push(
                WaylandEvent::Input(old(self).told_of_release(key_code, time)),
            ),
            final(self).same_windows(*old(self)),
            final(self).same_input(*old(self)),
            final(self).recorded@ == old(self).recorded@.push(
                WaylandEvent::Input(
                    InputEvent::Keyboard(
                        WaylandKeyboardKeyEvent {
                            key_code,
                            state: KeyState::Released,
                            device: old(self).keyboard->0,
                            count: 0,
                            time,
                            window: old(self).focus.keyboard->0,
                        },
                    ),
                ),
            ),
    {
        self.key(key_code, time, KeyState::Released);
    }
}

/// The place of a window that exists among all windows.
spec fn living_index(windows: Seq<WindowEntry>, i: int) -> int
    decreases windows.len(),
{
    if windows.len() == 0 {
        0
    } else if i < living(windows.drop_last()).len() {
        living_index(windows.drop_last(), i)
    } else {
        windows.len() - 1
    }
}

proof fn lemma_living_at(windows: Seq<WindowEntry>, i: int)
    requires
        0 <= i < living(windows).len(),
    ensures
        0 <= living_index(windows, i) < windows.len(),
        living(windows)[i] == windows[living_index(windows, i)],
    decreases windows.len(),
{
    let head = windows.drop_last();
    if i < living(head).len() {
        lemma_living_at(head, i);
        assert(living(windows)[i] == living(head)[i]);
    }
}

proof fn lemma_living_order(windows: Seq<WindowEntry>, i: int, j: int)
    requires
        0 <= i < j < living(windows).len(),
    ensures
        living_index(windows, i) < living_index(windows, j),
    decreases windows.len(),
{
    let head = windows.drop_last();
    lemma_living_at(head, i);
    if j < living(head).len() {
        lemma_living_order(head, i, j);
    }
}

/// What is recorded only grows.
proof fn lemma_run_grows(
    focus: Option<WindowId>,
    windows: Seq<WindowEntry>,
    device: WaylandVirtualDevice,
    events: Seq<PointerEvent>,
    n: int,
)
    requires
        0 <= n <= events.len(),
    ensures
        pointer_run(focus, windows, device, events.take(n)).1.len() <= pointer_run(
            focus,
            windows,
            device,
            events,
        ).1.len(),
    decreases events.len() - n,
{
    if n == events.len() {
        assert(events.take(n) =~= events);
    } else {
        assert(events.take(n + 1).drop_last() =~= events.take(n));
        lemma_run_grows(focus, windows, device, events, n + 1);
    }
}

/// Nothing is recorded of a pointer that is over no window and enters none.
pub proof fn pointer_outside_is_ignored(
    windows: Seq<WindowEntry>,
    device: WaylandVirtualDevice,
    events: Seq<PointerEvent>,
)
    requires
        forall|i: int|
            0 <= i < events.len() ==> window_id(windows, (#[trigger] events[i]).surface) is None,
    ensures
        pointer_run(None, windows, device, events) == (
            None::<WindowId>,
            Seq::<WaylandEvent>::empty(),
        ),
    decreases events.len(),
{
    if events.len() > 0 {
        let head = events.drop_last();
        assert forall|i: int| 0 <= i < head.len() implies window_id(
            windows,
            (#[trigger] head[i]).surface,
        ) is None by {
            assert(window_id(windows, events[i].surface) is None);
        }
        pointer_outside_is_ignored(windows, device, head);
        assert(window_id(windows, events[events.len() - 1].surface) is None);
    }
}

} // verus!

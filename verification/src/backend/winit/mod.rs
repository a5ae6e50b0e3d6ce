//! Running in a window of winit.

use vstd::prelude::*;

use crate::backend::input::FloatBits;
use crate::utils::geometry::{Point, Rectangle, Size};

use self::input::{
    ElementState, InputEvent, MouseButton, MouseScrollDelta, Position, WinitKeyboardInputEvent,
    WinitMouseInputEvent, WinitMouseMovedEvent, WinitMouseWheelEvent, WinitTouchCancelledEvent,
    WinitTouchEndedEvent, WinitTouchMovedEvent, WinitTouchStartedEvent, WinitVirtualDevice,
};

pub mod input;
pub mod input_backend;
pub mod laws;
pub mod setup;

verus! {

/// What happens to the window.
#[derive(Clone, Copy, Debug, PartialEq, Eq, Structural)]
pub enum WinitEvent {
    /// The window was resized.
    Resized { size: Size, scale_factor: FloatBits },
    /// The window got or lost the focus.
    Focus(bool),
    Input(InputEvent),
    /// The user wants to close the window.
    CloseRequested,
    /// The window has to be drawn anew.
    Redraw,
}

/// Where a movement comes from.
#[derive(Clone, Copy, Debug, PartialEq, Eq, Structural)]
pub enum PointerSource {
    Mouse,
    Touch { finger_id: u64 },
    TabletTool,
    Unknown,
}

/// Where a press comes from.
#[derive(Clone, Copy, Debug, PartialEq, Eq, Structural)]
pub enum ButtonSource {
    Mouse(MouseButton),
    Touch { finger_id: u64 },
    TabletTool,
    Unknown,
}

/// What winit tells of a window. Positions come in pixels, and relative to the size of the
/// window.
#[derive(Clone, Copy, Debug, PartialEq, Eq, Structural)]
pub enum WindowEvent {
    SurfaceResized(Size),
    /// The scale changed; with the size that the window then has.
    ScaleFactorChanged { scale_factor: FloatBits, size: Size },
    RedrawRequested,
    CloseRequested,
    Focused(bool),
    KeyboardInput {
        /// The code of the key, if it has one.
        scancode: Option<u32>,
        state: ElementState,
        repeat: bool,
        is_synthetic: bool,
    },
    PointerMoved { position: Position, relative: Position, source: PointerSource },
    MouseWheel(MouseScrollDelta),
    PointerButton {
        state: ElementState,
        button: ButtonSource,
        position: Position,
        relative: Position,
    },
    /// A pointer left; a finger, if it has an id.
    PointerLeft { finger_id: Option<u64> },
    /// Something that is of no interest here.
    Other,
}

/// The state of the window.
#[derive(Clone, Copy, Debug, PartialEq, Eq, Structural)]
pub struct WinitEventLoopInner {
    /// Whether the window was created.
    pub window: bool,
    /// The error with which it could not be created.
    pub window_create_error: Option<i32>,
    /// The number of keys that are pressed.
    pub key_counter: u32,
    pub is_x11: bool,
    pub scale_factor: FloatBits,
}

/// The number of pressed keys after a key was pressed or released.
pub open spec fn counted(count: u32, state: ElementState) -> int {
    match state {
        ElementState::Pressed => count + 1,
        ElementState::Released => if count > 0 {
            count - 1
        } else {
            0
        },
    }
}

/// The number of pressed keys after a key was pressed or released.
pub fn count_key(count: u32, state: ElementState) -> (r: u32)
    requires
        counted(count, state) <= u32::MAX,
    ensures
        r == counted(count, state),
{
    match state {
        ElementState::Pressed => count + 1,
        ElementState::Released => if count > 0 {
            count - 1
        } else {
            0
        },
    }
}

impl WinitEventLoopInner {
    /// No window yet.
    pub fn new(scale_factor: FloatBits) -> (inner: WinitEventLoopInner)
        ensures
            inner == (WinitEventLoopInner {
                window: false,
                window_create_error: None,
                key_counter: 0,
                is_x11: false,
                scale_factor,
            }),
    {
        WinitEventLoopInner {
            window: false,
            window_create_error: None,
            key_counter: 0,
            is_x11: false,
            scale_factor,
        }
    }

    /// The state after a window was to be created, and what is told.
    pub open spec fn opened(self, outcome: Result<(), i32>) -> (
        WinitEventLoopInner,
        Option<WinitEvent>,
    ) {
        if self.window {
            (self, None)
        } else {
            (
                match outcome {
                    Ok(_) => WinitEventLoopInner { window: true, ..self },
                    Err(code) => WinitEventLoopInner { window_create_error: Some(code), ..self },
                },
                Some(WinitEvent::Input(InputEvent::DeviceAdded(WinitVirtualDevice))),
            )
        }
    }

    /// Windows can be created now; the first time, one is.
    pub fn can_create_surfaces(&mut self, outcome: Result<(), i32>) -> (event: Option<WinitEvent>)
        ensures
            (*final(self), event) == old(self).opened(outcome),
            if old(self).window {
                event is None && *final(self) == *old(self)
            } else {
                &&& event == Some(WinitEvent::Input(InputEvent::DeviceAdded(WinitVirtualDevice)))
                &&& *final(self) == (match outcome {
                    Ok(_) => WinitEventLoopInner { window: true, ..*old(self) },
                    Err(code) => WinitEventLoopInner {
                        window_create_error: Some(code),
                        ..*old(self)
                    },
                })
            },
    {
        if self.window {
            return None;
        }
        match outcome {
            Ok(_) => {
                self.window = true;
            },
            Err(code) => {
                self.window_create_error = Some(code);
            },
        }
        Some(WinitEvent::Input(InputEvent::DeviceAdded(WinitVirtualDevice)))
    }

    /// Whether an event is of a key that counts: not one that is repeated or made up.
    pub open spec fn counts(event: WindowEvent) -> bool {
        event matches WindowEvent::KeyboardInput { repeat, is_synthetic, .. } && !repeat
            && !is_synthetic
    }

    /// The state after an event.
    pub open spec fn after(self, event: WindowEvent) -> WinitEventLoopInner {
        match event {
            WindowEvent::ScaleFactorChanged { scale_factor, .. } => WinitEventLoopInner {
                scale_factor,
                ..self
            },
            WindowEvent::KeyboardInput { state, .. } => if Self::counts(event) {
                WinitEventLoopInner { key_counter: counted(self.key_counter, state) as u32, ..self }
            } else {
                self
            },
            _ => self,
        }
    }

    /// What is told about an event.
    pub open spec fn told(self, event: WindowEvent, time: u64, later: u64) -> Seq<WinitEvent> {
        match event {
            WindowEvent::SurfaceResized(size) => seq![
                WinitEvent::Resized { size, scale_factor: self.scale_factor },
            ],
            WindowEvent::ScaleFactorChanged { scale_factor, size } => seq![
                WinitEvent::Resized { size, scale_factor },
            ],
            WindowEvent::RedrawRequested => seq![WinitEvent::Redraw],
            WindowEvent::CloseRequested => seq![WinitEvent::CloseRequested],
            WindowEvent::Focused(focused) => seq![WinitEvent::Focus(focused)],
            WindowEvent::KeyboardInput { scancode, state, .. } => if Self::counts(event) {
                seq![
                    WinitEvent::Input(
                        InputEvent::Keyboard(
                            WinitKeyboardInputEvent {
                                time,
                                key: match scancode {
                                    Some(key) => key,
                                    None => 0,
                                },
                                count: counted(self.key_counter, state) as u32,
                                state,
                            },
                        ),
                    ),
                ]
            } else {
                seq![]
            },
            WindowEvent::PointerMoved { position, relative, source } => match source {
                PointerSource::Mouse => seq![
                    WinitEvent::Input(
                        InputEvent::PointerMotionAbsolute(
                            WinitMouseMovedEvent {
                                time,
                                position: relative,
                                global_position: position,
                            },
                        ),
                    ),
                ],
                PointerSource::Touch { finger_id } => seq![
                    WinitEvent::Input(
                        InputEvent::TouchMotion(
                            WinitTouchMovedEvent {
                                time,
                                position: relative,
                                global_position: position,
                                id: finger_id,
                            },
                        ),
                    ),
                ],
                _ => seq![],
            },
            WindowEvent::MouseWheel(delta) => seq![
                WinitEvent::Input(InputEvent::PointerAxis(WinitMouseWheelEvent { time, delta })),
            ],
            WindowEvent::PointerButton { state, button, position, relative } => match button {
                ButtonSource::Mouse(button) => seq![
                    WinitEvent::Input(
                        InputEvent::PointerButton(
                            WinitMouseInputEvent { time, button, state, is_x11: self.is_x11 },
                        ),
                    ),
                ],
                ButtonSource::Touch { finger_id } => match state {
                    ElementState::Pressed => seq![
                        WinitEvent::Input(
                            InputEvent::TouchDown(
                                WinitTouchStartedEvent {
                                    time,
                                    position: relative,
                                    global_position: position,
                                    id: finger_id,
                                },
                            ),
                        ),
                    ],
                    ElementState::Released => seq![
                        WinitEvent::Input(
                            InputEvent::TouchMotion(
                                WinitTouchMovedEvent {
                                    time,
                                    position: relative,
                                    global_position: position,
                                    id: finger_id,
                                },
                            ),
                        ),
                        WinitEvent::Input(
                            InputEvent::TouchUp(WinitTouchEndedEvent { time: later, id: finger_id }),
                        ),
                    ],
                },
                _ => seq![],
            },
            WindowEvent::PointerLeft { finger_id: Some(id) } => seq![
                WinitEvent::Input(InputEvent::TouchCancel(WinitTouchCancelledEvent { time, id })),
            ],
            _ => seq![],
        }
    }

    /// Handles what winit tells of the window, at a time; what is told last of several things is
    /// told at the later time.
    pub fn window_event(&mut self, event: WindowEvent, time: u64, later: u64) -> (events: Vec<
        WinitEvent,
    >)
        requires
            event matches WindowEvent::KeyboardInput { state, .. } ==> old(self).window
                && Self::counts(event) ==> counted(old(self).key_counter, state) <= u32::MAX,
        ensures
            if old(self).window {
                *final(self) == old(self).after(event) && events@ == old(self).told(
                    event,
                    time,
                    later,
                )
            } else {
                *final(self) == *old(self) && events@ == Seq::<WinitEvent>::empty()
            },
    {
        let mut events: Vec<WinitEvent> = Vec::new();
        if !self.window {
            return events;
        }
        match event {
            WindowEvent::SurfaceResized(size) => {
                events.push(WinitEvent::Resized { size, scale_factor: self.scale_factor });
            },
            WindowEvent::ScaleFactorChanged { scale_factor, size } => {
                self.scale_factor = scale_factor;
                events.push(WinitEvent::Resized { size, scale_factor });
            },
            WindowEvent::RedrawRequested => {
                events.push(WinitEvent::Redraw);
            },
            WindowEvent::CloseRequested => {
                events.push(WinitEvent::CloseRequested);
            },
            WindowEvent::Focused(focused) => {
                events.push(WinitEvent::Focus(focused));
            },
            WindowEvent::KeyboardInput { scancode, state, repeat, is_synthetic } => {
                if !is_synthetic && !repeat {
                    self.key_counter = count_key(self.key_counter, state);
                    let key: u32 = match scancode {
                        Some(key) => key,
                        None => 0,
                    };
                    events.push(
                        WinitEvent::Input(
                            InputEvent::Keyboard(
                                WinitKeyboardInputEvent {
                                    time,
                                    key,
                                    count: self.key_counter,
                                    state,
                                },
                            ),
                        ),
                    );
                }
            },
            WindowEvent::PointerMoved { position, relative, source } => match source {
                PointerSource::Mouse => {
                    events.push(
                        WinitEvent::Input(
                            InputEvent::PointerMotionAbsolute(
                                WinitMouseMovedEvent {
                                    time,
                                    position: relative,
                                    global_position: position,
                                },
                            ),
                        ),
                    );
                },
                PointerSource::Touch { finger_id } => {
                    events.push(
                        WinitEvent::Input(
                            InputEvent::TouchMotion(
                                WinitTouchMovedEvent {
                                    time,
                                    position: relative,
                                    global_position: position,
                                    id: finger_id,
                                },
                            ),
                        ),
                    );
                },
                PointerSource::TabletTool => {},
                PointerSource::Unknown => {},
            },
            WindowEvent::MouseWheel(delta) => {
                events.push(
                    WinitEvent::Input(
                        InputEvent::PointerAxis(WinitMouseWheelEvent { time, delta }),
                    ),
                );
            },
            WindowEvent::PointerButton { state, button, position, relative } => match button {
                ButtonSource::Mouse(button) => {
                    events.push(
                        WinitEvent::Input(
                            InputEvent::PointerButton(
                                WinitMouseInputEvent { time, button, state, is_x11: self.is_x11 },
                            ),
                        ),
                    );
                },
                ButtonSource::Touch { finger_id } => match state {
                    ElementState::Pressed => {
                        events.push(
                            WinitEvent::Input(
                                InputEvent::TouchDown(
                                    WinitTouchStartedEvent {
                                        time,
                                        position: relative,
                                        global_position: position,
                                        id: finger_id,
                                    },
                                ),
                            ),
                        );
                    },
                    ElementState::Released => {
                        events.push(
                            WinitEvent::Input(
                                InputEvent::TouchMotion(
                                    WinitTouchMovedEvent {
                                        time,
                                        position: relative,
                                        global_position: position,
                                        id: finger_id,
                                    },
                                ),
                            ),
                        );
                        events.push(
                            WinitEvent::Input(
                                InputEvent::TouchUp(
                                    WinitTouchEndedEvent { time: later, id: finger_id },
                                ),
                            ),
                        );
                    },
                },
                ButtonSource::TabletTool => {},
                ButtonSource::Unknown => {},
            },
            WindowEvent::PointerLeft { finger_id } => {
                if let Some(id) = finger_id {
                    events.push(
                        WinitEvent::Input(
                            InputEvent::TouchCancel(WinitTouchCancelledEvent { time, id }),
                        ),
                    );
                }
            },
            WindowEvent::Other => {},
        }
        assert(events@ =~= old(self).told(event, time, later));
        events
    }
}

/// What becomes of an event loop.
#[derive(Clone, Copy, Debug, PartialEq, Eq, Structural)]
pub enum PumpStatus {
    Continue,
    Exit(i32),
}

/// What the outer event loop does with this one.
#[derive(Clone, Copy, Debug, PartialEq, Eq, Structural)]
pub enum PostAction {
    Continue,
    Remove,
}

/// Events that wait to be handed out.
#[derive(Debug)]
pub struct WinitEventLoop {
    /// Events of the time when the window was created.
    pub initial_events: Vec<WinitEvent>,
    /// Events that came before the outer event loop went to sleep.
    pub pending_events: Vec<WinitEvent>,
    /// The token with which the outer event loop is woken.
    pub fake_token: Option<usize>,
}

impl WinitEventLoop {
    /// Only what happened when the window was created waits.
    pub fn new(initial_events: Vec<WinitEvent>) -> (event_loop: WinitEventLoop)
        ensures
            event_loop.initial_events == initial_events,
            event_loop.pending_events@ == Seq::<WinitEvent>::empty(),
            event_loop.fake_token is None,
    {
        WinitEventLoop { initial_events, pending_events: Vec::new(), fake_token: None }
    }

    /// The new events that are handed out.
    pub open spec fn fresh(self, new: Seq<WinitEvent>) -> Seq<WinitEvent> {
        self.initial_events@ + new
    }

    /// All events that wait, with the new ones.
    pub open spec fn waiting(self, new: Seq<WinitEvent>) -> Seq<WinitEvent> {
        self.pending_events@ + self.fresh(new)
    }

    /// Hands out new events, the first time after those of the window's creation.
    pub fn dispatch_new_events(&mut self, new: Vec<WinitEvent>) -> (events: Vec<WinitEvent>)
        ensures
            events@ == old(self).fresh(new@),
            events@ == old(self).initial_events@ + new@,
            final(self).initial_events@ == Seq::<WinitEvent>::empty(),
            final(self).pending_events == old(self).pending_events,
            final(self).fake_token == old(self).fake_token,
    {
        let mut events: Vec<WinitEvent> = Vec::new();
        let mut new = new;
        events.append(&mut self.initial_events);
        events.append(&mut new);
        events
    }

    /// Takes in what is new before the outer event loop goes to sleep; if anything waits, the
    /// loop is woken with the token.
    pub fn before_sleep(&mut self, new: Vec<WinitEvent>) -> (wake: Option<usize>)
        requires
            old(self).pending_events@.len() + old(self).initial_events@.len() + new@.len() > 0
                ==> old(self).fake_token is Some,
        ensures
            final(self).pending_events@ == old(self).waiting(new@),
            final(self).pending_events@ == old(self).pending_events@ + (
            old(self).initial_events@ + new@),
            final(self).initial_events@ == Seq::<WinitEvent>::empty(),
            final(self).fake_token == old(self).fake_token,
            wake == (if final(self).pending_events@.len() == 0 {
                None
            } else {
                old(self).fake_token
            }),
    {
        let mut fresh = self.dispatch_new_events(new);
        self.pending_events.append(&mut fresh);
        if self.pending_events.len() == 0 {
            None
        } else {
            self.fake_token
        }
    }

    /// Hands out what waits, and then what is new.
    pub fn process_events(&mut self, new: Vec<WinitEvent>, status: PumpStatus) -> (r: (
        Vec<WinitEvent>,
        PostAction,
    ))
        ensures
            r.0@ == old(self).waiting(new@),
            r.0@ == old(self).pending_events@ + (old(self).initial_events@ + new@),
            r.1 == (match status {
                PumpStatus::Continue => PostAction::Continue,
                PumpStatus::Exit(_) => PostAction::Remove,
            }),
            final(self).pending_events@ == Seq::<WinitEvent>::empty(),
            final(self).initial_events@ == Seq::<WinitEvent>::empty(),
            final(self).fake_token == old(self).fake_token,
    {
        let mut events: Vec<WinitEvent> = Vec::new();
        events.append(&mut self.pending_events);
        let mut fresh = self.dispatch_new_events(new);
        events.append(&mut fresh);
        let action = match status {
            PumpStatus::Continue => PostAction::Continue,
            PumpStatus::Exit(_) => PostAction::Remove,
        };
        (events, action)
    }

    /// The event loop was put into an outer one.
    pub fn registered(&mut self, token: usize)
        ensures
            final(self).fake_token == Some(token),
            final(self).pending_events == old(self).pending_events,
            final(self).initial_events == old(self).initial_events,
    {
        self.fake_token = Some(token);
    }
}

/// A rectangle with the other side up, on a surface of some height.
pub open spec fn flipped(r: Rectangle, height: int) -> Rectangle {
    Rectangle {
        loc: Point { x: r.loc.x, y: (height - r.loc.y - r.size.h) as i32 },
        size: r.size,
    }
}

/// The flipped rectangle has a place.
pub open spec fn can_flip(r: Rectangle, height: int) -> bool {
    i32::MIN <= height - r.loc.y <= i32::MAX && i32::MIN <= height - r.loc.y - r.size.h <= i32::MAX
}

/// A window that is drawn to.
#[derive(Clone, Copy, Debug, PartialEq, Eq, Structural)]
pub struct WinitGraphicsBackend {
    pub damage_tracking: bool,
    /// The size of the window when it was last drawn to.
    pub bind_size: Option<Size>,
}

impl WinitGraphicsBackend {
    /// A window that was never drawn to.
    pub fn new(damage_tracking: bool) -> (backend: WinitGraphicsBackend)
        ensures
            backend == (WinitGraphicsBackend { damage_tracking, bind_size: None }),
    {
        WinitGraphicsBackend { damage_tracking, bind_size: None }
    }

    /// Gets ready to draw to the window. The surface gets the size of the window if that has
    /// changed.
    pub fn bind(&mut self, window_size: Size) -> (resize: Option<Size>)
        ensures
            final(self).bind_size == Some(window_size),
            final(self).damage_tracking == old(self).damage_tracking,
            resize == (if old(self).bind_size == Some(window_size) {
                None
            } else {
                Some(window_size)
            }),
    {
        let same: bool = match self.bind_size {
            Some(size) => size == window_size,
            None => false,
        };
        self.bind_size = Some(window_size);
        if same {
            None
        } else {
            Some(window_size)
        }
    }

    /// The age of the contents of the surface: unknown contents where damage is not tracked,
    /// else what the surface says. A window that was never drawn to has no age.
    pub fn buffer_age(&self, surface_age: Option<i32>) -> (age: Option<usize>)
        ensures
            age == (if self.bind_size is None {
                None
            } else if self.damage_tracking {
                match surface_age {
                    Some(age) => Some(age as usize),
                    None => None,
                }
            } else {
                Some(0usize)
            }),
    {
        if self.bind_size.is_none() {
            return None;
        }
        if self.damage_tracking {
            match surface_age {
                Some(age) => Some(age as usize),
                None => None,
            }
        } else {
            Some(0)
        }
    }

    /// The damage that is handed to the surface, which counts from the bottom. Without damage
    /// the whole surface is shown.
    pub fn submit(&self, damage: Option<&Vec<Rectangle>>) -> (r: Option<Vec<Rectangle>>)
        requires
            damage matches Some(rects) ==> self.damage_tracking && rects@.len() > 0 ==> {
                &&& self.bind_size is Some
                &&& forall|i: int|
                    0 <= i < rects@.len() ==> can_flip(
                        #[trigger] rects@[i],
                        self.bind_size->0.h as int,
                    )
            },
        ensures
            match damage {
                Some(rects) if self.damage_tracking && rects@.len() > 0 => r matches Some(list)
                    && list@ == Seq::new(
                    rects@.len(),
                    |i: int| flipped(rects@[i], self.bind_size->0.h as int),
                ),
                _ => r is None,
            },
    {
        let damage: &Vec<Rectangle> = match damage {
            Some(damage) => damage,
            None => {
                return None;
            },
        };
        if !self.damage_tracking || damage.len() == 0 {
            return None;
        }
        let height: i32 = match self.bind_size {
            Some(size) => size.h,
            None => 0,
        };
        let mut list: Vec<Rectangle> = Vec::new();
        for i in 0..damage.len()
            invariant
                forall|i: int|
                    0 <= i < damage@.len() ==> can_flip(#[trigger] damage@[i], height as int),
                list@.len() == i,
                forall|j: int|
                    0 <= j < i ==> #[trigger] list@[j] == flipped(damage@[j], height as int),
        {
            let r: Rectangle = damage[i];
            assert(can_flip(damage@[i as int], height as int));
            list.push(
                Rectangle {
                    loc: Point { x: r.loc.x, y: height - r.loc.y - r.size.h },
                    size: r.size,
                },
            );
        }
        assert(list@ =~= Seq::new(damage@.len(), |i: int| flipped(damage@[i], height as int)));
        Some(list)
    }
}

/// The flipped rectangle covers the pixels of the rectangle, counted from the bottom; flipped
/// again it is the rectangle.
pub proof fn flip_turns_upside_down(r: Rectangle, height: int, x: int, y: int)
    requires
        can_flip(r, height),
    ensures
        r.has(x, y) <==> flipped(r, height).has(x, height - 1 - y),
        flipped(flipped(r, height), height) == r,
{
}

/// A key that is pressed and released again leaves the number of pressed keys as it was.
pub proof fn release_undoes_press(count: u32)
    requires
        count < u32::MAX,
    ensures
        counted(counted(count, ElementState::Pressed) as u32, ElementState::Released) == count,
{
}

/// However the outer event loop sleeps in between, all events are handed out, in order and
/// once.
pub proof fn no_event_is_lost(
    pending: Seq<WinitEvent>,
    initial: Seq<WinitEvent>,
    before_sleep: Seq<WinitEvent>,
    after_sleep: Seq<WinitEvent>,
)
    ensures
        ({
            let waiting = pending + (initial + before_sleep);
            waiting + (Seq::<WinitEvent>::empty() + after_sleep) == pending + initial
                + before_sleep + after_sleep
        }),
{
    assert(pending + (initial + before_sleep) + (Seq::<WinitEvent>::empty() + after_sleep)
        =~= pending + initial + before_sleep + after_sleep);
}

/// Of the events that wait, those that came before the last sleep come first, then those of the
/// window's creation, and the new ones last; each of them keeps its place among its own.
pub proof fn events_wait_in_order(event_loop: WinitEventLoop, new: Seq<WinitEvent>, i: int)
    ensures
        ({
            let p = event_loop.pending_events@.len() as int;
            let n = event_loop.initial_events@.len() as int;
            let all = event_loop.waiting(new);
            &&& all.len() == p + n + new.len()
            &&& 0 <= i < p ==> all[i] == event_loop.pending_events@[i]
            &&& 0 <= i < n ==> all[p + i] == event_loop.initial_events@[i]
            &&& 0 <= i < new.len() ==> all[p + n + i] == new[i]
        }),
{
}

/// The age of a window's contents is that of its surface, as long as it was drawn to and damage is
/// tracked; without tracking the contents are unknown.
pub proof fn age_is_that_of_the_surface(
    backend: WinitGraphicsBackend,
    surface_age: Option<i32>,
    age: Option<usize>,
)
    requires
        surface_age matches Some(n) ==> n >= 0,
        call_ensures(WinitGraphicsBackend::buffer_age, (&backend, surface_age), age),
    ensures
        backend.bind_size is None ==> age is None,
        backend.bind_size is Some && !backend.damage_tracking ==> age == Some(0usize),
        backend.bind_size is Some && backend.damage_tracking ==> (age is Some <==> surface_age
            is Some),
        backend.damage_tracking && age is Some ==> age->0 == surface_age->0,
{
}

/// Damage is handed to the surface exactly if it is tracked and there is some: each rectangle in its
/// order, with the pixels counted from the bottom.
pub proof fn submitted_damage_is_upside_down(
    backend: WinitGraphicsBackend,
    damage: Vec<Rectangle>,
    r: Option<Vec<Rectangle>>,
    i: int,
    x: int,
    y: int,
)
    requires
        backend.bind_size is Some,
        forall|i: int|
            0 <= i < damage@.len() ==> can_flip(#[trigger] damage@[i], backend.bind_size->0.h as int),
        call_ensures(WinitGraphicsBackend::submit, (&backend, Some(&damage)), r),
    ensures
        r is Some <==> backend.damage_tracking && damage@.len() > 0,
        r matches Some(list) ==> {
            &&& list@.len() == damage@.len()
            &&& 0 <= i < list@.len() ==> (list@[i].has(x, backend.bind_size->0.h - 1 - y)
                <==> damage@[i].has(x, y))
        },
{
    if let Some(list) = r {
        if 0 <= i < list@.len() {
            assert(can_flip(damage@[i], backend.bind_size->0.h as int));
            flip_turns_upside_down(damage@[i], backend.bind_size->0.h as int, x, y);
        }
    }
}

} // verus!

use smithay::backend::input::{
    xorg_mouse_to_libinput, Axis, AxisSource, ButtonState, DeviceCapability, FloatBits, KeyState,
};
use smithay::backend::winit::input::{
    ElementState, InputEvent, MouseButton, MouseScrollDelta, Position, WinitKeyboardInputEvent,
    WinitMouseInputEvent, WinitMouseWheelEvent, WinitTouchCancelledEvent, WinitTouchEndedEvent,
    WinitVirtualDevice,
};
use smithay::backend::winit::input_backend::{
    milliseconds, other_button, LoopEvent, TouchPhase, WindowSize, WinitInputBackend,
    WinitInputError,
};
use smithay::backend::winit::setup::{
    Error as SetupError, SetupAction, SetupEvent, WindowSystem, WinitSetup,
};
use smithay::backend::winit::{
    ButtonSource, PointerSource, PostAction, PumpStatus, WindowEvent, WinitEvent, WinitEventLoop,
    WinitEventLoopInner, WinitGraphicsBackend,
};
use smithay::utils::geometry::{Point, Rectangle, Size};

fn rect(x: i32, y: i32, w: i32, h: i32) -> Rectangle {
    Rectangle::new(Point::new(x, y), Size::new(w, h))
}

fn position(x: u64) -> Position {
    Position { x: FloatBits(x), y: FloatBits(x + 1) }
}

#[test]
fn the_device_has_capabilities() {
    assert_eq!(WinitVirtualDevice.id(), "winit");
    assert_eq!(WinitVirtualDevice.name(), "winit virtual input");
    assert!(WinitVirtualDevice.has_capability(DeviceCapability::Touch));
    assert!(!WinitVirtualDevice.has_capability(DeviceCapability::TabletTool));
    assert_eq!(WinitVirtualDevice.usb_id(), None);
}

#[test]
fn buttons_have_codes() {
    let code = |button, is_x11| {
        WinitMouseInputEvent { time: 0, button, state: ElementState::Pressed, is_x11 }
            .button_code()
    };
    assert_eq!(code(MouseButton::Left, false), 0x110);
    assert_eq!(code(MouseButton::Right, false), 0x111);
    assert_eq!(code(MouseButton::Middle, false), 0x112);
    assert_eq!(code(MouseButton::Forward, false), 0x115);
    assert_eq!(code(MouseButton::Back, false), 0x116);
    assert_eq!(code(MouseButton::Other(9), false), 9);
    assert_eq!(code(MouseButton::Other(9), true), 0x114);
    assert_eq!(xorg_mouse_to_libinput(0), 0);
    assert_eq!(xorg_mouse_to_libinput(1), 0x110);
    assert_eq!(xorg_mouse_to_libinput(2), 0x112);
    assert_eq!(xorg_mouse_to_libinput(3), 0x111);
    assert_eq!(other_button(0x1ff), 0xff);
}

#[test]
fn wheels_scroll_lines() {
    let lines = WinitMouseWheelEvent {
        time: 0,
        delta: MouseScrollDelta::LineDelta { x: 3, y: 4 },
    };
    assert_eq!(lines.source(), AxisSource::Wheel);
    assert_eq!(lines.amount(Axis::Vertical), None);
    assert_eq!(lines.lines(Axis::Vertical), Some(4));
    assert_eq!(lines.lines(Axis::Horizontal), Some(3));
    let pixels =
        WinitMouseWheelEvent { time: 0, delta: MouseScrollDelta::PixelDelta(position(7)) };
    assert_eq!(pixels.source(), AxisSource::Continuous);
    assert_eq!(pixels.amount(Axis::Horizontal), Some(FloatBits(7)));
    assert_eq!(pixels.amount(Axis::Vertical), Some(FloatBits(8)));
    assert_eq!(pixels.lines(Axis::Vertical), None);
}

#[test]
fn fingers_have_slots() {
    assert_eq!(WinitTouchEndedEvent { time: 0, id: 5 }.slot(), Some(5));
    assert_eq!(WinitTouchCancelledEvent { time: 0, id: 0x1_0000_0002 }.slot(), Some(2));
}

fn inner() -> WinitEventLoopInner {
    let mut inner = WinitEventLoopInner::new(FloatBits(1));
    assert_eq!(
        inner.can_create_surfaces(Ok(())),
        Some(WinitEvent::Input(InputEvent::DeviceAdded(WinitVirtualDevice)))
    );
    inner
}

#[test]
fn the_window_is_created_once() {
    let mut failing = WinitEventLoopInner::new(FloatBits(1));
    assert!(failing.window_event(WindowEvent::CloseRequested, 0, 0).is_empty());
    assert!(failing.can_create_surfaces(Err(5)).is_some());
    assert_eq!(failing.window_create_error, Some(5));
    let mut inner = inner();
    assert_eq!(inner.can_create_surfaces(Ok(())), None);
}

fn key(state: ElementState, repeat: bool, is_synthetic: bool) -> WindowEvent {
    WindowEvent::KeyboardInput { scancode: Some(30), state, repeat, is_synthetic }
}

#[test]
fn pressed_keys_are_counted() {
    let mut inner = inner();
    let count = |events: Vec<WinitEvent>| match events[..] {
        [WinitEvent::Input(InputEvent::Keyboard(event))] => Some(event.count()),
        _ => None,
    };
    assert_eq!(count(inner.window_event(key(ElementState::Pressed, false, false), 1, 1)), Some(1));
    assert_eq!(count(inner.window_event(key(ElementState::Pressed, true, false), 1, 1)), None);
    assert_eq!(count(inner.window_event(key(ElementState::Pressed, false, true), 1, 1)), None);
    assert_eq!(count(inner.window_event(key(ElementState::Released, false, false), 1, 1)), Some(0));
    assert_eq!(count(inner.window_event(key(ElementState::Released, false, false), 1, 1)), Some(0));
    let unknown = WindowEvent::KeyboardInput {
        scancode: None,
        state: ElementState::Pressed,
        repeat: false,
        is_synthetic: false,
    };
    assert_eq!(
        inner.window_event(unknown, 9, 9),
        vec![WinitEvent::Input(InputEvent::Keyboard(WinitKeyboardInputEvent {
            time: 9,
            key: 0,
            count: 1,
            state: ElementState::Pressed
        }))]
    );
}

#[test]
fn key_states_are_converted() {
    let event =
        WinitKeyboardInputEvent { time: 0, key: 3, count: 1, state: ElementState::Released };
    assert_eq!((event.key_code(), event.state()), (3, KeyState::Released));
    let button = WinitMouseInputEvent {
        time: 0,
        button: MouseButton::Left,
        state: ElementState::Pressed,
        is_x11: false,
    };
    assert_eq!(button.state(), ButtonState::Pressed);
}

#[test]
fn the_window_tells_its_size() {
    let mut inner = inner();
    let size = Size::new(3, 4);
    assert_eq!(
        inner.window_event(WindowEvent::SurfaceResized(size), 0, 0),
        vec![WinitEvent::Resized { size, scale_factor: FloatBits(1) }]
    );
    let change = WindowEvent::ScaleFactorChanged { scale_factor: FloatBits(2), size };
    assert_eq!(
        inner.window_event(change, 0, 0),
        vec![WinitEvent::Resized { size, scale_factor: FloatBits(2) }]
    );
    assert_eq!(inner.scale_factor, FloatBits(2));
    assert_eq!(inner.window_event(WindowEvent::RedrawRequested, 0, 0), vec![WinitEvent::Redraw]);
    assert_eq!(
        inner.window_event(WindowEvent::Focused(true), 0, 0),
        vec![WinitEvent::Focus(true)]
    );
    assert_eq!(
        inner.window_event(WindowEvent::CloseRequested, 0, 0),
        vec![WinitEvent::CloseRequested]
    );
    assert!(inner.window_event(WindowEvent::Other, 0, 0).is_empty());
}

#[test]
fn a_finger_that_leaves_moves_first() {
    let mut inner = inner();
    let release = WindowEvent::PointerButton {
        state: ElementState::Released,
        button: ButtonSource::Touch { finger_id: 6 },
        position: position(1),
        relative: position(3),
    };
    let events = inner.window_event(release, 10, 11);
    match events[..] {
        [WinitEvent::Input(InputEvent::TouchMotion(moved)), WinitEvent::Input(InputEvent::TouchUp(up))] =>
        {
            assert_eq!((moved.time, moved.id, moved.position), (10, 6, position(3)));
            assert_eq!(moved.slot(), Some(6));
            assert_eq!((up.time, up.id), (11, 6));
        }
        _ => panic!("unexpected events"),
    }
    let left = WindowEvent::PointerLeft { finger_id: Some(6) };
    assert!(matches!(
        inner.window_event(left, 1, 1)[..],
        [WinitEvent::Input(InputEvent::TouchCancel(_))]
    ));
    assert!(inner.window_event(WindowEvent::PointerLeft { finger_id: None }, 1, 1).is_empty());
    let down = WindowEvent::PointerButton {
        state: ElementState::Pressed,
        button: ButtonSource::Touch { finger_id: 6 },
        position: position(1),
        relative: position(3),
    };
    match inner.window_event(down, 1, 1)[..] {
        [WinitEvent::Input(InputEvent::TouchDown(event))] => assert_eq!(event.slot(), Some(6)),
        _ => panic!("unexpected events"),
    }
}

#[test]
fn pointers_move_and_press() {
    let mut inner = inner();
    let moved = |source| WindowEvent::PointerMoved {
        position: position(1),
        relative: position(3),
        source,
    };
    match inner.window_event(moved(PointerSource::Mouse), 1, 1)[..] {
        [WinitEvent::Input(InputEvent::PointerMotionAbsolute(event))] => {
            assert_eq!((event.position, event.global_position), (position(3), position(1)));
        }
        _ => panic!("unexpected events"),
    }
    assert!(matches!(
        inner.window_event(moved(PointerSource::Touch { finger_id: 1 }), 1, 1)[..],
        [WinitEvent::Input(InputEvent::TouchMotion(_))]
    ));
    assert!(inner.window_event(moved(PointerSource::TabletTool), 1, 1).is_empty());
    assert!(inner.window_event(moved(PointerSource::Unknown), 1, 1).is_empty());
    let press = |button| WindowEvent::PointerButton {
        state: ElementState::Pressed,
        button,
        position: position(1),
        relative: position(3),
    };
    assert!(matches!(
        inner.window_event(press(ButtonSource::Mouse(MouseButton::Left)), 1, 1)[..],
        [WinitEvent::Input(InputEvent::PointerButton(_))]
    ));
    assert!(inner.window_event(press(ButtonSource::TabletTool), 1, 1).is_empty());
    let wheel = WindowEvent::MouseWheel(MouseScrollDelta::PixelDelta(position(1)));
    assert!(matches!(
        inner.window_event(wheel, 1, 1)[..],
        [WinitEvent::Input(InputEvent::PointerAxis(_))]
    ));
}

#[test]
fn no_event_gets_lost_in_sleep() {
    let mut events = WinitEventLoop::new(vec![WinitEvent::Redraw]);
    events.registered(4);
    assert_eq!(events.before_sleep(vec![WinitEvent::Focus(true)]), Some(4));
    let (out, action) = events.process_events(vec![WinitEvent::CloseRequested], PumpStatus::Continue);
    assert_eq!(
        out,
        vec![WinitEvent::Redraw, WinitEvent::Focus(true), WinitEvent::CloseRequested]
    );
    assert_eq!(action, PostAction::Continue);
    assert_eq!(events.before_sleep(Vec::new()), None);
    let (out, action) = events.process_events(Vec::new(), PumpStatus::Exit(0));
    assert!(out.is_empty());
    assert_eq!(action, PostAction::Remove);
}

#[test]
fn damage_is_counted_from_the_bottom() {
    let mut backend = WinitGraphicsBackend::new(true);
    assert_eq!(backend.bind(Size::new(10, 20)), Some(Size::new(10, 20)));
    assert_eq!(backend.bind(Size::new(10, 20)), None);
    assert_eq!(
        backend.submit(Some(&vec![rect(1, 2, 3, 4)])),
        Some(vec![rect(1, 14, 3, 4)])
    );
    assert_eq!(backend.submit(Some(&Vec::new())), None);
    assert_eq!(backend.submit(None), None);
    assert_eq!(backend.buffer_age(Some(2)), Some(2));
    assert_eq!(backend.buffer_age(None), None);
    let mut plain = WinitGraphicsBackend::new(false);
    // A window that was never drawn to has no age.
    assert_eq!(plain.buffer_age(Some(2)), None);
    plain.bind(Size::new(10, 20));
    assert_eq!(plain.buffer_age(Some(2)), Some(0));
    assert_eq!(plain.submit(Some(&vec![rect(1, 2, 3, 4)])), None);
}

fn backend() -> WinitInputBackend {
    WinitInputBackend::new(WindowSize {
        physical_size: Size::new(1, 1),
        scale_factor: FloatBits(1),
    })
}

#[test]
fn a_closed_window_gives_no_more_input() {
    let mut backend = backend();
    assert!(backend.begin_dispatch().is_some());
    assert!(backend.begin_dispatch().is_none());
    assert_eq!(backend.end_dispatch(), Ok(()));
    assert_eq!(
        backend.handle_event(LoopEvent::CloseRequested, 1),
        vec![WinitEvent::Input(InputEvent::DeviceRemoved(WinitVirtualDevice))]
    );
    assert_eq!(backend.end_dispatch(), Err(WinitInputError::WindowClosed));
}

#[test]
fn the_surface_follows_the_window() {
    let mut backend = backend();
    let size = Size::new(3, 4);
    let scale_factor = FloatBits(2);
    backend.handle_event(LoopEvent::Resized { size, scale_factor }, 1);
    assert_eq!(backend.render_size(), (Some(size), size));
    assert_eq!(backend.render_size(), (None, size));
    let larger = Size::new(6, 8);
    assert_eq!(
        backend.handle_event(LoopEvent::ScaleFactorChanged { size: larger, scale_factor }, 1),
        vec![WinitEvent::Resized { size: larger, scale_factor }]
    );
    assert_eq!(backend.render_size(), (Some(larger), size));
}

#[test]
fn fetched_input_is_told() {
    let mut backend = backend();
    let down = LoopEvent::KeyboardInput { scancode: 3, state: ElementState::Pressed };
    match backend.handle_event(down, 5)[..] {
        [WinitEvent::Input(InputEvent::Keyboard(event))] => {
            assert_eq!((event.time, event.key, event.count), (5, 3, 1));
        }
        _ => panic!("unexpected events"),
    }
    let touch = |phase| LoopEvent::Touch {
        phase,
        position: position(1),
        logical: position(3),
        id: 2,
    };
    assert_eq!(backend.handle_event(touch(TouchPhase::Started), 1).len(), 1);
    assert_eq!(backend.handle_event(touch(TouchPhase::Moved), 1).len(), 1);
    assert_eq!(backend.handle_event(touch(TouchPhase::Ended), 1).len(), 2);
    assert!(matches!(
        backend.handle_event(touch(TouchPhase::Cancelled), 1)[..],
        [WinitEvent::Input(InputEvent::TouchCancel(_))]
    ));
    let others = [
        LoopEvent::RedrawRequested,
        LoopEvent::Focused(true),
        LoopEvent::CursorMoved { position: position(1), logical: position(3) },
        LoopEvent::MouseWheel(MouseScrollDelta::LineDelta { x: 0, y: 0 }),
        LoopEvent::MouseInput { state: ElementState::Pressed, button: MouseButton::Left },
    ];
    for event in others {
        assert_eq!(backend.handle_event(event, 1).len(), 1);
    }
    assert!(backend.handle_event(LoopEvent::Other, 1).is_empty());
}

#[test]
fn time_is_counted_in_milliseconds() {
    assert_eq!(milliseconds(2, 3_999_999), 2003);
    assert_eq!(milliseconds(4_294_968, 0), 704);
}

fn opened() -> WinitSetup {
    let mut setup = WinitSetup::new(WinitEventLoopInner::new(FloatBits(1)));
    assert_eq!(setup.next_action(), Some(SetupAction::CreateEventLoop));
    setup.advance(SetupEvent::Done).unwrap();
    setup.advance(SetupEvent::Done).unwrap();
    assert_eq!(setup.next_action(), Some(SetupAction::PumpEvents));
    let added = setup.inner.can_create_surfaces(Ok(())).unwrap();
    setup.received(added);
    setup.advance(SetupEvent::Done).unwrap();
    assert_eq!(setup.next_action(), Some(SetupAction::FindSystem));
    setup
}

#[test]
fn a_window_is_set_up_on_wayland() {
    let mut setup = opened();
    assert_eq!(setup.advance(SetupEvent::Failed(1)), Err(SetupError::NotSupported));
    setup.advance(SetupEvent::System(WindowSystem::Wayland)).unwrap();
    assert!(!setup.inner.is_x11);
    assert_eq!(setup.next_action(), Some(SetupAction::CreateDisplay));
    assert_eq!(setup.advance(SetupEvent::Failed(1)), Err(SetupError::Egl(1)));
    setup.advance(SetupEvent::Done).unwrap();
    assert_eq!(setup.next_action(), Some(SetupAction::CreateContext { ten_bit: true }));
    setup.advance(SetupEvent::Failed(1)).unwrap();
    assert_eq!(setup.next_action(), Some(SetupAction::CreateContext { ten_bit: false }));
    assert_eq!(setup.advance(SetupEvent::Failed(2)), Err(SetupError::Egl(2)));
    setup.advance(SetupEvent::Done).unwrap();
    assert_eq!(setup.next_action(), Some(SetupAction::WrapSurface));
    assert_eq!(setup.advance(SetupEvent::Failed(3)), Err(SetupError::Surface(3)));
    setup.advance(SetupEvent::Done).unwrap();
    let create = SetupAction::CreateSurface(WindowSystem::Wayland);
    assert_eq!(setup.next_action(), Some(create));
    assert_eq!(setup.advance(SetupEvent::Failed(4)), Err(SetupError::Egl(4)));
    setup.advance(SetupEvent::Done).unwrap();
    assert_eq!(setup.next_action(), Some(SetupAction::CreateRenderer));
    assert_eq!(
        setup.advance(SetupEvent::Failed(5)),
        Err(SetupError::RendererCreationError(5))
    );
    setup.advance(SetupEvent::Done).unwrap();
    assert_eq!(setup.next_action(), None);
    let (backend, event_loop, _) = setup.finish(true);
    assert!(backend.damage_tracking && backend.bind_size.is_none());
    assert_eq!(event_loop.initial_events.len(), 1);
}

#[test]
fn a_window_is_set_up_on_x11() {
    let mut setup = opened();
    setup.advance(SetupEvent::System(WindowSystem::Xlib)).unwrap();
    assert!(setup.inner.is_x11);
    setup.advance(SetupEvent::Done).unwrap();
    setup.advance(SetupEvent::Done).unwrap();
    assert_eq!(setup.next_action(), Some(SetupAction::CreateSurface(WindowSystem::Xlib)));
    assert_eq!(setup.advance(SetupEvent::Failed(4)), Err(SetupError::Egl(4)));
}

#[test]
fn windows_that_cannot_be_created_end_the_setup() {
    let mut setup = WinitSetup::new(WinitEventLoopInner::new(FloatBits(1)));
    assert_eq!(
        setup.advance(SetupEvent::Failed(6)),
        Err(SetupError::EventLoopCreation(6))
    );
    setup.advance(SetupEvent::Done).unwrap();
    setup.inner.can_create_surfaces(Err(7));
    assert_eq!(setup.advance(SetupEvent::Done), Err(SetupError::WindowCreation(7)));
}

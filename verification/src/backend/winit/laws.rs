//! What is told of a window and of its input.

use vstd::prelude::*;

use super::input::ElementState;
use super::input_backend::{LoopEvent, TouchPhase, WinitInputBackend};
use super::{ButtonSource, PointerSource, WindowEvent, WinitEvent, WinitEventLoopInner};

verus! {

/// Whether something that is told is about a button of the pointer.
pub open spec fn is_button(event: WinitEvent) -> bool {
    event is Input && event->Input_0 is PointerButton
}

/// Whether something that is told is about a key.
pub open spec fn is_key(event: WinitEvent) -> bool {
    event is Input && event->Input_0 is Keyboard
}

/// Whether something that is told is about a finger.
pub open spec fn is_touch(event: WinitEvent) -> bool {
    event is Input && (event->Input_0 is TouchDown || event->Input_0 is TouchMotion
        || event->Input_0 is TouchUp || event->Input_0 is TouchCancel)
}

/// For a button of a mouse exactly one event is told: of the same button, at the time it came, and
/// it is released exactly if the button was released. Of no other event of the window a button is
/// told.
pub proof fn mouse_buttons_are_told(
    inner: WinitEventLoopInner,
    event: WindowEvent,
    time: u64,
    later: u64,
)
    ensures
        ({
            let told = inner.told(event, time, later);
            match event {
                WindowEvent::PointerButton { state, button: ButtonSource::Mouse(button), .. } => {
                    &&& told.len() == 1
                    &&& is_button(told[0])
                    &&& told[0]->Input_0->PointerButton_0.button == button
                    &&& told[0]->Input_0->PointerButton_0.state is Released <==> state is Released
                    &&& told[0]->Input_0->PointerButton_0.state is Pressed <==> state is Pressed
                    &&& told[0]->Input_0->PointerButton_0.time == time
                    &&& told[0]->Input_0->PointerButton_0.is_x11 == inner.is_x11
                },
                _ => forall|i: int| 0 <= i < told.len() ==> !is_button(#[trigger] told[i]),
            }
        }),
{
}

/// For a key that is neither repeated nor made up exactly one event is told: of the same key, at
/// the time it came, pressed exactly if the key was pressed, and with the number of keys that are
/// then pressed. That is one more after a press and one less after a release, but never less than
/// none. For no other event a key is told or counted.
pub proof fn keys_are_told(
    inner: WinitEventLoopInner,
    event: WindowEvent,
    time: u64,
    later: u64,
)
    requires
        inner.key_counter < u32::MAX,
    ensures
        ({
            let told = inner.told(event, time, later);
            let after = inner.after(event);
            match event {
                WindowEvent::KeyboardInput { scancode, state, repeat: false, is_synthetic: false } => {
                    &&& told.len() == 1
                    &&& is_key(told[0])
                    &&& told[0]->Input_0->Keyboard_0.time == time
                    &&& told[0]->Input_0->Keyboard_0.state is Released <==> state is Released
                    &&& told[0]->Input_0->Keyboard_0.state is Pressed <==> state is Pressed
                    &&& scancode matches Some(key) ==> told[0]->Input_0->Keyboard_0.key == key
                    &&& scancode is None ==> told[0]->Input_0->Keyboard_0.key == 0
                    &&& told[0]->Input_0->Keyboard_0.count == after.key_counter
                    &&& state is Pressed ==> after.key_counter == inner.key_counter + 1
                    &&& state is Released && inner.key_counter > 0 ==> after.key_counter
                        == inner.key_counter - 1
                    &&& state is Released && inner.key_counter == 0 ==> after.key_counter == 0
                },
                _ => {
                    &&& forall|i: int| 0 <= i < told.len() ==> !is_key(#[trigger] told[i])
                    &&& after.key_counter == inner.key_counter
                },
            }
        }),
{
}

/// A move of the mouse and a turn of its wheel are each told once, with their position and their
/// extent and at the time they came.
pub proof fn pointer_is_told(
    inner: WinitEventLoopInner,
    event: WindowEvent,
    time: u64,
    later: u64,
)
    ensures
        ({
            let told = inner.told(event, time, later);
            &&& event matches WindowEvent::PointerMoved {
                position,
                relative,
                source: PointerSource::Mouse,
            } ==> {
                &&& told.len() == 1
                &&& told[0] is Input && told[0]->Input_0 is PointerMotionAbsolute
                &&& told[0]->Input_0->PointerMotionAbsolute_0.position == relative
                &&& told[0]->Input_0->PointerMotionAbsolute_0.global_position == position
                &&& told[0]->Input_0->PointerMotionAbsolute_0.time == time
            }
            &&& event matches WindowEvent::MouseWheel(delta) ==> {
                &&& told.len() == 1
                &&& told[0] is Input && told[0]->Input_0 is PointerAxis
                &&& told[0]->Input_0->PointerAxis_0.delta == delta
                &&& told[0]->Input_0->PointerAxis_0.time == time
            }
            &&& forall|i: int|
                0 <= i < told.len() && #[trigger] told[i] is Input
                    && told[i]->Input_0 is PointerMotionAbsolute ==> event is PointerMoved
            &&& forall|i: int|
                0 <= i < told.len() && #[trigger] told[i] is Input && told[i]->Input_0 is PointerAxis
                    ==> event is MouseWheel
        }),
{
}

/// A finger is told with its id and its place: down when it touches the window, moved when it
/// moves, moved to its last place and then up when it is lifted, and cancelled when it leaves. Of
/// no other event a finger is told.
pub proof fn fingers_are_told(
    inner: WinitEventLoopInner,
    event: WindowEvent,
    time: u64,
    later: u64,
)
    ensures
        ({
            let told = inner.told(event, time, later);
            match event {
                WindowEvent::PointerMoved {
                    position,
                    relative,
                    source: PointerSource::Touch { finger_id },
                } => {
                    &&& told.len() == 1
                    &&& told[0] is Input && told[0]->Input_0 is TouchMotion
                    &&& told[0]->Input_0->TouchMotion_0.id == finger_id
                    &&& told[0]->Input_0->TouchMotion_0.position == relative
                    &&& told[0]->Input_0->TouchMotion_0.global_position == position
                    &&& told[0]->Input_0->TouchMotion_0.time == time
                },
                WindowEvent::PointerButton {
                    state: ElementState::Pressed,
                    button: ButtonSource::Touch { finger_id },
                    position,
                    relative,
                } => {
                    &&& told.len() == 1
                    &&& told[0] is Input && told[0]->Input_0 is TouchDown
                    &&& told[0]->Input_0->TouchDown_0.id == finger_id
                    &&& told[0]->Input_0->TouchDown_0.position == relative
                    &&& told[0]->Input_0->TouchDown_0.global_position == position
                    &&& told[0]->Input_0->TouchDown_0.time == time
                },
                WindowEvent::PointerButton {
                    state: ElementState::Released,
                    button: ButtonSource::Touch { finger_id },
                    position,
                    relative,
                } => {
                    &&& told.len() == 2
                    &&& told[0] is Input && told[0]->Input_0 is TouchMotion
                    &&& told[0]->Input_0->TouchMotion_0.id == finger_id
                    &&& told[0]->Input_0->TouchMotion_0.position == relative
                    &&& told[0]->Input_0->TouchMotion_0.global_position == position
                    &&& told[0]->Input_0->TouchMotion_0.time == time
                    &&& told[1] is Input && told[1]->Input_0 is TouchUp
                    &&& told[1]->Input_0->TouchUp_0.id == finger_id
                    &&& told[1]->Input_0->TouchUp_0.time == later
                },
                WindowEvent::PointerLeft { finger_id: Some(id) } => {
                    &&& told.len() == 1
                    &&& told[0] is Input && told[0]->Input_0 is TouchCancel
                    &&& told[0]->Input_0->TouchCancel_0.id == id
                    &&& told[0]->Input_0->TouchCancel_0.time == time
                },
                _ => forall|i: int| 0 <= i < told.len() ==> !is_touch(#[trigger] told[i]),
            }
        }),
{
}

/// A new size or a new scale of the window is told once, with the size and with the scale that the
/// window then has; so are the focus, the wish to close and the need to draw. Nothing is told of a
/// tablet, of what leaves without being a finger, or of other things.
pub proof fn window_is_told(
    inner: WinitEventLoopInner,
    event: WindowEvent,
    time: u64,
    later: u64,
)
    ensures
        ({
            let told = inner.told(event, time, later);
            let after = inner.after(event);
            match event {
                WindowEvent::SurfaceResized(size) => {
                    &&& told.len() == 1
                    &&& told[0] == (WinitEvent::Resized { size, scale_factor: after.scale_factor })
                    &&& after.scale_factor == inner.scale_factor
                },
                WindowEvent::ScaleFactorChanged { scale_factor, size } => {
                    &&& told.len() == 1
                    &&& told[0] == (WinitEvent::Resized { size, scale_factor: after.scale_factor })
                    &&& after.scale_factor == scale_factor
                },
                WindowEvent::Focused(focused) => {
                    &&& told.len() == 1
                    &&& told[0] is Focus
                    &&& told[0]->Focus_0 <==> focused
                },
                WindowEvent::CloseRequested => told.len() == 1 && told[0] is CloseRequested,
                WindowEvent::RedrawRequested => told.len() == 1 && told[0] is Redraw,
                WindowEvent::KeyboardInput { repeat, is_synthetic, .. } => repeat || is_synthetic
                    ==> told.len() == 0 && after == inner,
                WindowEvent::PointerMoved { source, .. } => told.len() == 0 <==> source
                    is TabletTool || source is Unknown,
                WindowEvent::PointerButton { button, .. } => told.len() == 0 <==> button
                    is TabletTool || button is Unknown,
                WindowEvent::PointerLeft { finger_id } => told.len() == 0 <==> finger_id is None,
                WindowEvent::MouseWheel(_) => told.len() == 1,
                WindowEvent::Other => told.len() == 0,
            }
        }),
        !(event is ScaleFactorChanged) ==> inner.after(event).scale_factor == inner.scale_factor,
        inner.after(event).window == inner.window,
        inner.after(event).window_create_error == inner.window_create_error,
        inner.after(event).is_x11 == inner.is_x11,
{
}

/// Of fetched input, a button of the mouse and a key are each told once: of the same button or key,
/// released exactly if it was released, and with the number of keys that are then pressed. Of no
/// other event a button or a key is told.
pub proof fn fetched_buttons_and_keys_are_told(
    backend: WinitInputBackend,
    event: LoopEvent,
    time: u64,
)
    requires
        backend.key_counter < u32::MAX,
    ensures
        ({
            let told = backend.told(event, time);
            let after = backend.after(event);
            match event {
                LoopEvent::MouseInput { state, button } => {
                    &&& told.len() == 1
                    &&& is_button(told[0])
                    &&& told[0]->Input_0->PointerButton_0.button == button
                    &&& told[0]->Input_0->PointerButton_0.state is Released <==> state is Released
                    &&& told[0]->Input_0->PointerButton_0.state is Pressed <==> state is Pressed
                    &&& told[0]->Input_0->PointerButton_0.time == time
                    &&& !told[0]->Input_0->PointerButton_0.is_x11
                },
                LoopEvent::KeyboardInput { scancode, state } => {
                    &&& told.len() == 1
                    &&& is_key(told[0])
                    &&& told[0]->Input_0->Keyboard_0.key == scancode
                    &&& told[0]->Input_0->Keyboard_0.time == time
                    &&& told[0]->Input_0->Keyboard_0.state is Released <==> state is Released
                    &&& told[0]->Input_0->Keyboard_0.state is Pressed <==> state is Pressed
                    &&& told[0]->Input_0->Keyboard_0.count == after.key_counter
                    &&& state is Pressed ==> after.key_counter == backend.key_counter + 1
                    &&& state is Released && backend.key_counter > 0 ==> after.key_counter
                        == backend.key_counter - 1
                    &&& state is Released && backend.key_counter == 0 ==> after.key_counter == 0
                },
                _ => {
                    &&& forall|i: int|
                        0 <= i < told.len() ==> !is_key(#[trigger] told[i]) && !is_button(told[i])
                    &&& after.key_counter == backend.key_counter
                },
            }
        }),
{
}

/// Of fetched input, moves, the wheel and fingers are told with their places and ids, a lifted
/// finger first at its last place.
pub proof fn fetched_moves_and_fingers_are_told(
    backend: WinitInputBackend,
    event: LoopEvent,
    time: u64,
)
    ensures
        ({
            let told = backend.told(event, time);
            match event {
                LoopEvent::CursorMoved { position, logical } => {
                    &&& told.len() == 1
                    &&& told[0] is Input && told[0]->Input_0 is PointerMotionAbsolute
                    &&& told[0]->Input_0->PointerMotionAbsolute_0.position == logical
                    &&& told[0]->Input_0->PointerMotionAbsolute_0.global_position == position
                    &&& told[0]->Input_0->PointerMotionAbsolute_0.time == time
                },
                LoopEvent::MouseWheel(delta) => {
                    &&& told.len() == 1
                    &&& told[0] is Input && told[0]->Input_0 is PointerAxis
                    &&& told[0]->Input_0->PointerAxis_0.delta == delta
                    &&& told[0]->Input_0->PointerAxis_0.time == time
                },
                LoopEvent::Touch { phase: TouchPhase::Started, position, logical, id } => {
                    &&& told.len() == 1
                    &&& told[0] is Input && told[0]->Input_0 is TouchDown
                    &&& told[0]->Input_0->TouchDown_0.id == id
                    &&& told[0]->Input_0->TouchDown_0.position == logical
                    &&& told[0]->Input_0->TouchDown_0.global_position == position
                    &&& told[0]->Input_0->TouchDown_0.time == time
                },
                LoopEvent::Touch { phase: TouchPhase::Cancelled, id, .. } => {
                    &&& told.len() == 1
                    &&& told[0] is Input && told[0]->Input_0 is TouchCancel
                    &&& told[0]->Input_0->TouchCancel_0.id == id
                    &&& told[0]->Input_0->TouchCancel_0.time == time
                },
                LoopEvent::Touch { phase, position, logical, id } => {
                    &&& told.len() == (if phase is Ended {
                        2int
                    } else {
                        1int
                    })
                    &&& told[0] is Input && told[0]->Input_0 is TouchMotion
                    &&& told[0]->Input_0->TouchMotion_0.id == id
                    &&& told[0]->Input_0->TouchMotion_0.position == logical
                    &&& told[0]->Input_0->TouchMotion_0.global_position == position
                    &&& told[0]->Input_0->TouchMotion_0.time == time
                    &&& phase is Ended ==> {
                        &&& told[1] is Input && told[1]->Input_0 is TouchUp
                        &&& told[1]->Input_0->TouchUp_0.id == id
                        &&& told[1]->Input_0->TouchUp_0.time == time
                    }
                },
                _ => forall|i: int| 0 <= i < told.len() ==> !is_touch(#[trigger] told[i]),
            }
        }),
{
}

/// Of fetched input, what happens to the window is told once: its new size and scale, which the
/// surface has yet to get, its focus, the need to draw, and that the device is gone when the window
/// is closed. Other things change nothing.
pub proof fn fetched_window_is_told(backend: WinitInputBackend, event: LoopEvent, time: u64)
    ensures
        ({
            let told = backend.told(event, time);
            let after = backend.after(event);
            match event {
                LoopEvent::Resized { size, scale_factor } => {
                    &&& told.len() == 1
                    &&& told[0] == (WinitEvent::Resized { size, scale_factor })
                    &&& after.resize_notification == Some(size)
                    &&& after.size.physical_size == size
                    &&& after.size.scale_factor == scale_factor
                },
                LoopEvent::ScaleFactorChanged { size, scale_factor } => {
                    &&& told.len() == 1
                    &&& told[0] == (WinitEvent::Resized { size, scale_factor })
                    &&& after.resize_notification == Some(size)
                    &&& after.size.physical_size == backend.size.physical_size
                    &&& after.size.scale_factor == scale_factor
                },
                LoopEvent::Focused(focused) => {
                    &&& told.len() == 1
                    &&& told[0] is Focus
                    &&& told[0]->Focus_0 <==> focused
                    &&& after == backend
                },
                LoopEvent::RedrawRequested => {
                    &&& told.len() == 1
                    &&& told[0] is Redraw
                    &&& after == backend
                },
                LoopEvent::CloseRequested | LoopEvent::Destroyed => {
                    &&& told.len() == 1
                    &&& told[0] is Input && told[0]->Input_0 is DeviceRemoved
                    &&& after.closed
                    &&& after.size == backend.size
                    &&& after.resize_notification == backend.resize_notification
                },
                LoopEvent::Other => told.len() == 0 && after == backend,
                _ => {
                    &&& told.len() >= 1
                    &&& after.size == backend.size
                    &&& after.resize_notification == backend.resize_notification
                    &&& after.closed == backend.closed
                },
            }
        }),
        backend.after(event).initialized == backend.initialized,
{
}

/// The window is there exactly if it was or could be created, and an error is kept exactly if it
/// could not. The device is announced as long as there was no window, and never after.
pub proof fn window_is_created_once(inner: WinitEventLoopInner, outcome: Result<(), i32>)
    ensures
        ({
            let (after, told) = inner.opened(outcome);
            &&& after.window <==> inner.window || outcome is Ok
            &&& inner.window ==> after == inner && told is None
            &&& !inner.window ==> told is Some && told->0 is Input && told->0->Input_0
                is DeviceAdded
            &&& !inner.window && outcome is Err ==> after.window_create_error == Some(
                outcome->Err_0,
            )
            &&& outcome is Ok ==> after.window_create_error == inner.window_create_error
            &&& after.key_counter == inner.key_counter
            &&& after.scale_factor == inner.scale_factor
            &&& after.is_x11 == inner.is_x11
        }),
{
}

/// The device of fetched input is announced the first time only, and a window that was closed is
/// asked again; the size that the surface has yet to get is handed out once.
pub proof fn fetched_device_is_announced_once(backend: WinitInputBackend)
    ensures
        ({
            let (after, told) = backend.begun();
            &&& told is Some <==> !backend.initialized
            &&& told matches Some(event) ==> event is DeviceAdded
            &&& after.begun().1 is None
            &&& !after.closed
            &&& after.size == backend.size && after.key_counter == backend.key_counter
                && after.resize_notification == backend.resize_notification
        }),
        ({
            let (after, (resize, size)) = backend.measured();
            &&& resize == backend.resize_notification
            &&& size == backend.size.physical_size
            &&& after.measured().1.0 is None
            &&& after.measured().1.1 == size
            &&& after.closed == backend.closed && after.key_counter == backend.key_counter
        }),
{
}

} // verus!

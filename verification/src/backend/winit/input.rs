//! Input that comes through a window of winit.

use vstd::prelude::*;

use crate::backend::input::{
    xorg_mouse_to_libinput, spec_xorg_mouse_to_libinput, Axis, AxisSource, ButtonState,
    DeviceCapability, FloatBits, KeyState,
};

verus! {

/// The source of input.
#[derive(Clone, Copy, Debug, PartialEq, Eq, Structural)]
pub struct WinitInput;

/// The one device that all input comes from.
#[derive(Clone, Copy, Debug, PartialEq, Eq, Hash, Structural)]
pub struct WinitVirtualDevice;

impl WinitVirtualDevice {
    /// The id of the device.
    pub fn id(&self) -> (id: String)
        ensures
            id@ == "winit"@,
    {
        "winit".to_owned()
    }

    /// The name of the device.
    pub fn name(&self) -> (name: String)
        ensures
            name@ == "winit virtual input"@,
    {
        "winit virtual input".to_owned()
    }

    /// Whether the device can do something.
    pub fn has_capability(&self, capability: DeviceCapability) -> (r: bool)
        ensures
            r == (capability is Keyboard || capability is Pointer || capability is Touch),
    {
        match capability {
            DeviceCapability::Keyboard | DeviceCapability::Pointer | DeviceCapability::Touch =>
                true,
            _ => false,
        }
    }

    /// The device is on no bus.
    pub fn usb_id(&self) -> (id: Option<(u32, u32)>)
        ensures
            id is None,
    {
        None
    }
}

/// The state of a key or a button.
#[derive(Clone, Copy, Debug, PartialEq, Eq, Hash, Structural)]
pub enum ElementState {
    Pressed,
    Released,
}

impl vstd::std_specs::convert::FromSpecImpl<ElementState> for KeyState {
    open spec fn obeys_from_spec() -> bool {
        true
    }

    open spec fn from_spec(state: ElementState) -> KeyState {
        match state {
            ElementState::Pressed => KeyState::Pressed,
            ElementState::Released => KeyState::Released,
        }
    }
}

impl From<ElementState> for KeyState {
    fn from(state: ElementState) -> (r: KeyState) {
        match state {
            ElementState::Pressed => KeyState::Pressed,
            ElementState::Released => KeyState::Released,
        }
    }
}

impl vstd::std_specs::convert::FromSpecImpl<ElementState> for ButtonState {
    open spec fn obeys_from_spec() -> bool {
        true
    }

    open spec fn from_spec(state: ElementState) -> ButtonState {
        match state {
            ElementState::Pressed => ButtonState::Pressed,
            ElementState::Released => ButtonState::Released,
        }
    }
}

impl From<ElementState> for ButtonState {
    fn from(state: ElementState) -> (r: ButtonState) {
        match state {
            ElementState::Pressed => ButtonState::Pressed,
            ElementState::Released => ButtonState::Released,
        }
    }
}

/// A position.
#[derive(Clone, Copy, Debug, PartialEq, Eq, Structural)]
pub struct Position {
    pub x: FloatBits,
    pub y: FloatBits,
}

/// A key was pressed or released.
#[derive(Clone, Copy, Debug, PartialEq, Eq, Structural)]
pub struct WinitKeyboardInputEvent {
    pub time: u64,
    pub key: u32,
    /// The number of keys that are pressed.
    pub count: u32,
    pub state: ElementState,
}

impl WinitKeyboardInputEvent {
    /// The code of the key.
    pub fn key_code(&self) -> (code: u32)
        ensures
            code == self.key,
    {
        self.key
    }

    /// The new state of the key.
    pub fn state(&self) -> (state: KeyState)
        ensures
            state == (match self.state {
                ElementState::Pressed => KeyState::Pressed,
                ElementState::Released => KeyState::Released,
            }),
    {
        KeyState::from(self.state)
    }

    /// The number of keys that are pressed.
    pub fn count(&self) -> (count: u32)
        ensures
            count == self.count,
    {
        self.count
    }
}

/// The pointer moved.
#[derive(Clone, Copy, Debug, PartialEq, Eq, Structural)]
pub struct WinitMouseMovedEvent {
    pub time: u64,
    /// The position within the window, with the size of the window as unit.
    pub position: Position,
    /// The position in pixels.
    pub global_position: Position,
}

/// How far was scrolled. Lines are given by the bits of shorter floating point numbers.
#[derive(Clone, Copy, Debug, PartialEq, Eq, Structural)]
pub enum MouseScrollDelta {
    LineDelta { x: u32, y: u32 },
    PixelDelta(Position),
}

/// The pointer scrolled.
#[derive(Clone, Copy, Debug, PartialEq, Eq, Structural)]
pub struct WinitMouseWheelEvent {
    pub time: u64,
    pub delta: MouseScrollDelta,
}

impl WinitMouseWheelEvent {
    /// What scrolled: a wheel counts in lines.
    pub fn source(&self) -> (source: AxisSource)
        ensures
            source == (match self.delta {
                MouseScrollDelta::LineDelta { .. } => AxisSource::Wheel,
                MouseScrollDelta::PixelDelta(_) => AxisSource::Continuous,
            }),
    {
        match self.delta {
            MouseScrollDelta::LineDelta { .. } => AxisSource::Wheel,
            MouseScrollDelta::PixelDelta(_) => AxisSource::Continuous,
        }
    }

    /// How far was scrolled in pixels, where that is known.
    pub fn amount(&self, axis: Axis) -> (amount: Option<FloatBits>)
        ensures
            amount == (match (axis, self.delta) {
                (Axis::Horizontal, MouseScrollDelta::PixelDelta(delta)) => Some(delta.x),
                (Axis::Vertical, MouseScrollDelta::PixelDelta(delta)) => Some(delta.y),
                (_, MouseScrollDelta::LineDelta { .. }) => None,
            }),
    {
        match (axis, self.delta) {
            (Axis::Horizontal, MouseScrollDelta::PixelDelta(delta)) => Some(delta.x),
            (Axis::Vertical, MouseScrollDelta::PixelDelta(delta)) => Some(delta.y),
            (_, MouseScrollDelta::LineDelta { .. }) => None,
        }
    }

    /// How far was scrolled in lines, where that is known.
    pub fn lines(&self, axis: Axis) -> (lines: Option<u32>)
        ensures
            lines == (match (axis, self.delta) {
                (Axis::Horizontal, MouseScrollDelta::LineDelta { x, .. }) => Some(x),
                (Axis::Vertical, MouseScrollDelta::LineDelta { y, .. }) => Some(y),
                (_, MouseScrollDelta::PixelDelta(_)) => None,
            }),
    {
        match (axis, self.delta) {
            (Axis::Horizontal, MouseScrollDelta::LineDelta { x, .. }) => Some(x),
            (Axis::Vertical, MouseScrollDelta::LineDelta { y, .. }) => Some(y),
            (_, MouseScrollDelta::PixelDelta(_)) => None,
        }
    }
}

/// A button of a mouse.
#[derive(Clone, Copy, Debug, PartialEq, Eq, Structural)]
pub enum MouseButton {
    Left,
    Right,
    Middle,
    Back,
    Forward,
    Other(u16),
}

/// A button was pressed or released.
#[derive(Clone, Copy, Debug, PartialEq, Eq, Structural)]
pub struct WinitMouseInputEvent {
    pub time: u64,
    pub button: MouseButton,
    pub state: ElementState,
    pub is_x11: bool,
}

impl WinitMouseInputEvent {
    /// The code of the button.
    pub fn button_code(&self) -> (code: u32)
        requires
            self.is_x11 ==> !(self.button matches MouseButton::Other(b) && 4 <= b <= 7),
        ensures
            code == (match self.button {
                MouseButton::Left => 0x110u32,
                MouseButton::Right => 0x111u32,
                MouseButton::Middle => 0x112u32,
                MouseButton::Forward => 0x115u32,
                MouseButton::Back => 0x116u32,
                MouseButton::Other(b) => if self.is_x11 {
                    spec_xorg_mouse_to_libinput(b as u32)
                } else {
                    b as u32
                },
            }),
    {
        match self.button {
            MouseButton::Left => 0x110,
            MouseButton::Right => 0x111,
            MouseButton::Middle => 0x112,
            MouseButton::Forward => 0x115,
            MouseButton::Back => 0x116,
            MouseButton::Other(b) => if self.is_x11 {
                xorg_mouse_to_libinput(b as u32)
            } else {
                b as u32
            },
        }
    }

    /// The new state of the button.
    pub fn state(&self) -> (state: ButtonState)
        ensures
            state == (match self.state {
                ElementState::Pressed => ButtonState::Pressed,
                ElementState::Released => ButtonState::Released,
            }),
    {
        ButtonState::from(self.state)
    }
}

/// A finger touched the window.
#[derive(Clone, Copy, Debug, PartialEq, Eq, Structural)]
pub struct WinitTouchStartedEvent {
    pub time: u64,
    pub position: Position,
    pub global_position: Position,
    pub id: u64,
}

/// A finger moved.
#[derive(Clone, Copy, Debug, PartialEq, Eq, Structural)]
pub struct WinitTouchMovedEvent {
    pub time: u64,
    pub position: Position,
    pub global_position: Position,
    pub id: u64,
}

/// A finger left the window.
#[derive(Clone, Copy, Debug, PartialEq, Eq, Structural)]
pub struct WinitTouchEndedEvent {
    pub time: u64,
    pub id: u64,
}

/// A touch came to nothing.
#[derive(Clone, Copy, Debug, PartialEq, Eq, Structural)]
pub struct WinitTouchCancelledEvent {
    pub time: u64,
    pub id: u64,
}

/// The slot of a finger.
pub fn touch_slot(id: u64) -> (slot: Option<u32>)
    ensures
        slot == Some(id as u32),
{
    Some(id as u32)
}

impl WinitTouchStartedEvent {
    /// The slot of the finger.
    pub fn slot(&self) -> (slot: Option<u32>)
        ensures
            slot == Some(self.id as u32),
    {
        touch_slot(self.id)
    }
}

impl WinitTouchMovedEvent {
    /// The slot of the finger.
    pub fn slot(&self) -> (slot: Option<u32>)
        ensures
            slot == Some(self.id as u32),
    {
        touch_slot(self.id)
    }
}

impl WinitTouchEndedEvent {
    /// The slot of the finger.
    pub fn slot(&self) -> (slot: Option<u32>)
        ensures
            slot == Some(self.id as u32),
    {
        touch_slot(self.id)
    }
}

impl WinitTouchCancelledEvent {
    /// The slot of the finger.
    pub fn slot(&self) -> (slot: Option<u32>)
        ensures
            slot == Some(self.id as u32),
    {
        touch_slot(self.id)
    }
}

/// An event of the device.
#[derive(Clone, Copy, Debug, PartialEq, Eq, Structural)]
pub enum InputEvent {
    DeviceAdded(WinitVirtualDevice),
    DeviceRemoved(WinitVirtualDevice),
    Keyboard(WinitKeyboardInputEvent),
    PointerMotionAbsolute(WinitMouseMovedEvent),
    PointerAxis(WinitMouseWheelEvent),
    PointerButton(WinitMouseInputEvent),
    TouchDown(WinitTouchStartedEvent),
    TouchMotion(WinitTouchMovedEvent),
    TouchUp(WinitTouchEndedEvent),
    TouchCancel(WinitTouchCancelledEvent),
}

/// The named buttons of a mouse have the codes that an X server's buttons of the same name have; a
/// button without a name has the code of its number on an X server, and its number elsewhere.
pub proof fn named_buttons_have_known_codes(event: WinitMouseInputEvent, code: u32)
    requires
        event.is_x11 ==> !(event.button matches MouseButton::Other(b) && 4 <= b <= 7),
        call_ensures(WinitMouseInputEvent::button_code, (&event,), code),
    ensures
        event.button is Left ==> code == spec_xorg_mouse_to_libinput(1),
        event.button is Middle ==> code == spec_xorg_mouse_to_libinput(2),
        event.button is Right ==> code == spec_xorg_mouse_to_libinput(3),
        event.button is Forward ==> code == spec_xorg_mouse_to_libinput(10),
        event.button is Back ==> code == spec_xorg_mouse_to_libinput(11),
        event.button matches MouseButton::Other(b) ==> (if event.is_x11 {
            code == spec_xorg_mouse_to_libinput(b as u32)
        } else {
            code == b
        }),
{
}

/// Keys and buttons are pressed for whoever asks exactly if they were pressed.
pub proof fn states_are_passed_on(
    key: WinitKeyboardInputEvent,
    click: WinitMouseInputEvent,
    key_state: KeyState,
    click_state: ButtonState,
    code: u32,
    count: u32,
)
    requires
        call_ensures(WinitKeyboardInputEvent::state, (&key,), key_state),
        call_ensures(WinitMouseInputEvent::state, (&click,), click_state),
        call_ensures(WinitKeyboardInputEvent::key_code, (&key,), code),
        call_ensures(WinitKeyboardInputEvent::count, (&key,), count),
    ensures
        key_state is Pressed <==> key.state is Pressed,
        key_state is Released <==> key.state is Released,
        click_state is Pressed <==> click.state is Pressed,
        click_state is Released <==> click.state is Released,
        code == key.key,
        count == key.count,
{
}

/// A scroll is told in lines or in pixels, never in both, each axis with its own extent; lines come
/// from a wheel.
pub proof fn scroll_is_in_lines_or_pixels(
    event: WinitMouseWheelEvent,
    axis: Axis,
    amount: Option<FloatBits>,
    lines: Option<u32>,
    source: AxisSource,
)
    requires
        call_ensures(WinitMouseWheelEvent::amount, (&event, axis), amount),
        call_ensures(WinitMouseWheelEvent::lines, (&event, axis), lines),
        call_ensures(WinitMouseWheelEvent::source, (&event,), source),
    ensures
        amount is Some <==> lines is None,
        lines is Some <==> source is Wheel,
        amount is Some <==> source is Continuous,
        event.delta matches MouseScrollDelta::LineDelta { x, y } ==> {
            &&& axis is Horizontal ==> lines == Some(x)
            &&& axis is Vertical ==> lines == Some(y)
        },
        event.delta matches MouseScrollDelta::PixelDelta(delta) ==> {
            &&& axis is Horizontal ==> amount == Some(delta.x)
            &&& axis is Vertical ==> amount == Some(delta.y)
        },
{
}

} // verus!

//! Input that comes through windows of another compositor.

use vstd::prelude::*;

use crate::backend::input::{
    Axis, AxisSource, ButtonState, DeviceCapability, FloatBits, KeyState,
};

use super::window::WindowId;

verus! {

/// The source of input.
#[derive(Clone, Copy, Debug, PartialEq, Eq, Structural)]
pub struct WaylandInput;

/// A device that stands for all devices of one kind.
#[derive(Clone, Copy, Debug, PartialEq, Eq, Hash, Structural)]
pub struct WaylandVirtualDevice {
    pub capability: DeviceCapability,
}

impl WaylandVirtualDevice {
    /// The id of the device.
    pub fn id(&self) -> (id: String)
        ensures
            id@ == "wayland"@,
    {
        "wayland".to_owned()
    }

    /// The name of the device.
    pub fn name(&self) -> (name: String)
        requires
            self.capability is Keyboard || self.capability is Pointer || self.capability is Touch,
        ensures
            name@ == (match self.capability {
                DeviceCapability::Keyboard => "wayland virtual keyboard"@,
                DeviceCapability::Pointer => "wayland virtual pointer"@,
                _ => "wayland virtual touch"@,
            }),
    {
        match self.capability {
            DeviceCapability::Keyboard => "wayland virtual keyboard".to_owned(),
            DeviceCapability::Pointer => "wayland virtual pointer".to_owned(),
            _ => "wayland virtual touch".to_owned(),
        }
    }

    /// Whether the device can do something: exactly one thing.
    pub fn has_capability(&self, capability: DeviceCapability) -> (r: bool)
        ensures
            r == (self.capability == capability),
    {
        self.capability == capability
    }

    /// The device is on no bus.
    pub fn usb_id(&self) -> (id: Option<(u32, u32)>)
        ensures
            id is None,
    {
        None
    }
}

/// A key was pressed or released.
#[derive(Clone, Copy, Debug, PartialEq, Eq, Structural)]
pub struct WaylandKeyboardKeyEvent {
    pub key_code: u32,
    pub state: KeyState,
    pub device: WaylandVirtualDevice,
    pub count: u32,
    pub time: u32,
    pub window: WindowId,
}

impl WaylandKeyboardKeyEvent {
    /// The window that the event belongs to.
    pub fn window(&self) -> (window: WindowId)
        ensures
            window == self.window,
    {
        self.window
    }

    /// When it happened.
    pub fn time(&self) -> (time: u32)
        ensures
            time == self.time,
    {
        self.time
    }

    /// The device that it happened on.
    pub fn device(&self) -> (device: WaylandVirtualDevice)
        ensures
            device == self.device,
    {
        self.device
    }

    /// The code of the key.
    pub fn key_code(&self) -> (code: u32)
        ensures
            code == self.key_code,
    {
        self.key_code
    }

    /// The new state of the key.
    pub fn state(&self) -> (state: KeyState)
        ensures
            state == self.state,
    {
        self.state
    }

    /// The number of keys that are pressed.
    pub fn count(&self) -> (count: u32)
        ensures
            count == self.count,
    {
        self.count
    }
}

/// How far was scrolled along an axis.
#[derive(Clone, Copy, Debug, PartialEq, Eq, Structural)]
pub struct AxisScroll {
    pub absolute: FloatBits,
    /// The number of steps.
    pub discrete: i32,
}

/// What scrolled, as the compositor names it.
#[derive(Clone, Copy, Debug, PartialEq, Eq, Structural)]
pub enum WlAxisSource {
    Wheel,
    Finger,
    Continuous,
    WheelTilt,
    Unknown,
}

/// The pointer scrolled.
#[derive(Clone, Copy, Debug, PartialEq, Eq, Structural)]
pub struct WaylandPointerAxisEvent {
    pub device: WaylandVirtualDevice,
    pub vertical: AxisScroll,
    pub horizontal: AxisScroll,
    pub source: Option<WlAxisSource>,
    pub time: u32,
    pub window: WindowId,
}

impl WaylandPointerAxisEvent {
    /// The window that the event belongs to.
    pub fn window(&self) -> (window: WindowId)
        ensures
            window == self.window,
    {
        self.window
    }

    pub open spec fn scroll(self, axis: Axis) -> AxisScroll {
        match axis {
            Axis::Vertical => self.vertical,
            Axis::Horizontal => self.horizontal,
        }
    }

    /// How far was scrolled.
    pub fn amount(&self, axis: Axis) -> (amount: Option<FloatBits>)
        ensures
            amount == Some(self.scroll(axis).absolute),
    {
        match axis {
            Axis::Vertical => Some(self.vertical.absolute),
            Axis::Horizontal => Some(self.horizontal.absolute),
        }
    }

    /// The number of steps, given only where it is zero.
    pub fn amount_discrete(&self, axis: Axis) -> (amount: Option<i32>)
        ensures
            amount == (if self.scroll(axis).discrete == 0 {
                Some(0i32)
            } else {
                None
            }),
    {
        let amount: i32 = match axis {
            Axis::Vertical => self.vertical.discrete,
            Axis::Horizontal => self.horizontal.discrete,
        };
        if amount == 0 {
            Some(amount)
        } else {
            None
        }
    }

    /// What scrolled; a wheel, where nothing better is known.
    pub fn source(&self) -> (source: AxisSource)
        ensures
            source == (match self.source {
                Some(WlAxisSource::Continuous) => AxisSource::Continuous,
                Some(WlAxisSource::Finger) => AxisSource::Finger,
                Some(WlAxisSource::WheelTilt) => AxisSource::WheelTilt,
                _ => AxisSource::Wheel,
            }),
    {
        match self.source {
            Some(WlAxisSource::Continuous) => AxisSource::Continuous,
            Some(WlAxisSource::Finger) => AxisSource::Finger,
            Some(WlAxisSource::Wheel) => AxisSource::Wheel,
            Some(WlAxisSource::WheelTilt) => AxisSource::WheelTilt,
            _ => AxisSource::Wheel,
        }
    }
}

/// A button was pressed or released.
#[derive(Clone, Copy, Debug, PartialEq, Eq, Structural)]
pub struct WaylandPointerButtonEvent {
    pub button: u32,
    pub time: u32,
    pub state: ButtonState,
    pub window: WindowId,
    pub device: WaylandVirtualDevice,
}

impl WaylandPointerButtonEvent {
    /// The window that the event belongs to.
    pub fn window(&self) -> (window: WindowId)
        ensures
            window == self.window,
    {
        self.window
    }

    /// The code of the button.
    pub fn button_code(&self) -> (code: u32)
        ensures
            code == self.button,
    {
        self.button
    }

    /// The new state of the button.
    pub fn state(&self) -> (state: ButtonState)
        ensures
            state == self.state,
    {
        self.state
    }
}

/// The pointer moved.
#[derive(Clone, Copy, Debug, PartialEq, Eq, Structural)]
pub struct WaylandPointerMotionEvent {
    pub time: u32,
    pub x: FloatBits,
    pub y: FloatBits,
    pub window: WindowId,
    pub device: WaylandVirtualDevice,
}

impl WaylandPointerMotionEvent {
    /// The window that the event belongs to.
    pub fn window(&self) -> (window: WindowId)
        ensures
            window == self.window,
    {
        self.window
    }
}

/// An event of a device.
#[derive(Clone, Copy, Debug, PartialEq, Eq, Structural)]
pub enum InputEvent {
    DeviceAdded { device: WaylandVirtualDevice },
    DeviceRemoved { device: WaylandVirtualDevice },
    Keyboard(WaylandKeyboardKeyEvent),
    PointerMotionAbsolute(WaylandPointerMotionEvent),
    PointerButton(WaylandPointerButtonEvent),
    PointerAxis(WaylandPointerAxisEvent),
}

/// A scroll tells each axis its own extent, and steps only where there are none; it comes from a
/// wheel unless something else is known.
pub proof fn scroll_is_told_by_axis(
    event: WaylandPointerAxisEvent,
    axis: Axis,
    amount: Option<FloatBits>,
    steps: Option<i32>,
    source: AxisSource,
)
    requires
        call_ensures(WaylandPointerAxisEvent::amount, (&event, axis), amount),
        call_ensures(WaylandPointerAxisEvent::amount_discrete, (&event, axis), steps),
        call_ensures(WaylandPointerAxisEvent::source, (&event,), source),
    ensures
        axis is Vertical ==> amount == Some(event.vertical.absolute),
        axis is Horizontal ==> amount == Some(event.horizontal.absolute),
        axis is Vertical ==> (steps is Some <==> event.vertical.discrete == 0),
        axis is Horizontal ==> (steps is Some <==> event.horizontal.discrete == 0),
        steps matches Some(n) ==> n == 0,
        source is Finger <==> event.source == Some(WlAxisSource::Finger),
        source is Continuous <==> event.source == Some(WlAxisSource::Continuous),
        source is WheelTilt <==> event.source == Some(WlAxisSource::WheelTilt),
{
}

} // verus!

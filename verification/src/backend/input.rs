//! What all sources of input have in common.

use vstd::prelude::*;

verus! {

/// What a device can do.
#[derive(Clone, Copy, Debug, PartialEq, Eq, Hash, Structural)]
pub enum DeviceCapability {
    Keyboard,
    Pointer,
    Touch,
    TabletTool,
    TabletPad,
    Gesture,
    Switch,
}

/// The state of a key.
#[derive(Clone, Copy, Debug, PartialEq, Eq, Hash, Structural)]
pub enum KeyState {
    Released,
    Pressed,
}

/// The state of a button.
#[derive(Clone, Copy, Debug, PartialEq, Eq, Hash, Structural)]
pub enum ButtonState {
    Released,
    Pressed,
}

/// An axis of scrolling.
#[derive(Clone, Copy, Debug, PartialEq, Eq, Hash, Structural)]
pub enum Axis {
    Vertical,
    Horizontal,
}

/// What scrolls.
#[derive(Clone, Copy, Debug, PartialEq, Eq, Hash, Structural)]
pub enum AxisSource {
    Finger,
    Continuous,
    Wheel,
    WheelTilt,
}

/// The bits of a floating point number, which is only passed on.
#[derive(Clone, Copy, Debug, PartialEq, Eq, Structural)]
pub struct FloatBits(pub u64);

/// The code of a button of an X server.
pub open spec fn spec_xorg_mouse_to_libinput(button: u32) -> u32 {
    if button == 0 {
        0
    } else if button == 1 {
        0x110
    } else if button == 2 {
        0x112
    } else if button == 3 {
        0x111
    } else {
        (button - 8 + 0x113) as u32
    }
}

/// The code of a button of an X server, which counts left, middle and right, keeps four numbers
/// for scrolling, and goes on with the side buttons.
pub fn xorg_mouse_to_libinput(button: u32) -> (code: u32)
    requires
        button <= 3 || 8 <= button <= u32::MAX - 0x113 + 8,
    ensures
        code == spec_xorg_mouse_to_libinput(button),
{
    match button {
        0 => 0,
        1 => 0x110,
        2 => 0x112,
        3 => 0x111,
        _ => button - 8 + 0x113,
    }
}

/// The first three buttons of an X server are left, middle and right, whose codes follow each other
/// as left, right and middle; the side buttons, which come after the four that scroll, have the
/// codes behind those. No two buttons share a code.
pub proof fn buttons_have_codes_of_their_own(a: u32, b: u32)
    requires
        1 <= a <= 3 || 8 <= a <= u32::MAX - 0x113 + 8,
        1 <= b <= 3 || 8 <= b <= u32::MAX - 0x113 + 8,
    ensures
        spec_xorg_mouse_to_libinput(a) == spec_xorg_mouse_to_libinput(b) <==> a == b,
        spec_xorg_mouse_to_libinput(3) == spec_xorg_mouse_to_libinput(1) + 1,
        spec_xorg_mouse_to_libinput(2) == spec_xorg_mouse_to_libinput(3) + 1,
        spec_xorg_mouse_to_libinput(8) == spec_xorg_mouse_to_libinput(2) + 1,
        spec_xorg_mouse_to_libinput(1) == 0x110,
        a >= 8 ==> spec_xorg_mouse_to_libinput(a) - spec_xorg_mouse_to_libinput(8) == a - 8,
{
}

} // verus!

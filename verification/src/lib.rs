//! Verified core of a Wayland compositor toolkit: damage tracking, surface and
//! buffer bookkeeping, renderer planning, session and device state machines.

pub mod backend;
pub mod utils;

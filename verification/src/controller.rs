//! Controller kinds and the state a poll of one of them gives.

use vstd::prelude::*;
use crate::gamepad::Joystick;
use crate::gamepad::button::Button;

verus! {

/// A controller that can be polled for its current status.
pub trait Controller {
    type Status;

    fn poll(&self) -> Self::Status;
}

/// The DRC gamepad.
pub struct Gamepad;

/// A Wiimote.
pub struct Wiimote;

/// A Wiimote with Motion Plus.
pub struct WiiMotionPlus;

/// The Display Remote Controller.
pub struct DisplayRemoteController;

/// The Wii U Pro Controller.
pub struct ProController;

/// A Wiimote with a Classic Controller.
pub struct WiimoteClassic;

/// The buttons and sticks of one controller sample.
#[derive(Debug, Default, Clone, Copy)]
pub struct State {
    pub hold: Button,
    pub trigger: Button,
    pub release: Button,
    pub left_stick: Option<Joystick>,
    pub right_stick: Option<Joystick>,
}

} // verus!

//! Access controller input from connected gamepads.
//!
//! Supported controllers: the Display Remote Controller (DRC), the Wiimote
//! alone, with a Nunchuk or with a Classic Controller, the same three with
//! Motion Plus, and the Wii U Pro Controller (URCC).
//!
//! The system writes controller samples into a ring buffer; [`Gamepads`] keeps
//! the latest input of each port so that an application can query it between
//! polls. Pointer, gyro and touch data are carried as type parameters and are
//! `()` unless an application asks for them.

use vstd::prelude::*;

pub mod button;

use button::{
    all_bits, classic_table, maps_to, nunchuk_table, urcc_table, vpad_table, wpad_table, Button, ButtonFlag,
};

verus! {

/// A joystick position. The two axes are carried as the IEEE-754 bit patterns
/// of their single-precision values: the library passes them through unchanged.
#[derive(Debug, Default, Clone, Copy, PartialEq, Eq, Structural)]
pub struct Joystick {
    pub x_bits: u32,
    pub y_bits: u32,
}

/// A controller port.
#[derive(Debug, Clone, Copy, PartialEq, Eq, Structural)]
pub enum Port {
    P0,
    P1,
    P2,
    P3,
    P4,
    P5,
    P6,
    DRC,
}

/// The cache slot of a port: `P0`..`P6` are slots 0 to 6, the DRC is slot 7.
pub open spec fn port_index(p: Port) -> nat {
    match p {
        Port::P0 => 0,
        Port::P1 => 1,
        Port::P2 => 2,
        Port::P3 => 3,
        Port::P4 => 4,
        Port::P5 => 5,
        Port::P6 => 6,
        Port::DRC => 7,
    }
}

/// The port of a cache slot.
pub open spec fn port_at(i: nat) -> Port {
    if i == 0 {
        Port::P0
    } else if i == 1 {
        Port::P1
    } else if i == 2 {
        Port::P2
    } else if i == 3 {
        Port::P3
    } else if i == 4 {
        Port::P4
    } else if i == 5 {
        Port::P5
    } else if i == 6 {
        Port::P6
    } else {
        Port::DRC
    }
}

impl Port {
    /// The cache slot of this port.
    pub fn index(self) -> (r: usize)
        ensures
            r == port_index(self),
    {
        match self {
            Port::P0 => 0,
            Port::P1 => 1,
            Port::P2 => 2,
            Port::P3 => 3,
            Port::P4 => 4,
            Port::P5 => 5,
            Port::P6 => 6,
            Port::DRC => 7,
        }
    }

    /// The port of cache slot `i`.
    pub fn from_index(i: usize) -> (r: Port)
        requires
            i < 8,
        ensures
            r == port_at(i as nat),
    {
        match i {
            0 => Port::P0,
            1 => Port::P1,
            2 => Port::P2,
            3 => Port::P3,
            4 => Port::P4,
            5 => Port::P5,
            6 => Port::P6,
            _ => Port::DRC,
        }
    }
}

/// Holds the input data from the various gamepad types.
#[derive(Debug, Clone, PartialEq)]
pub enum Input<Pointer = (), Gyro = (), Touch = ()> {
    Wiimote { hold: Button, trigger: Button, release: Button, pointer: Pointer },
    Nunchuk {
        hold: Button,
        trigger: Button,
        release: Button,
        stick: Joystick,
        pointer: Pointer,
    },
    WiimotePlus {
        hold: Button,
        trigger: Button,
        release: Button,
        pointer: Pointer,
        gyro: Gyro,
    },
    NunchukPlus {
        hold: Button,
        trigger: Button,
        release: Button,
        stick: Joystick,
        pointer: Pointer,
        gyro: Gyro,
    },
    Classic {
        hold: Button,
        trigger: Button,
        release: Button,
        left_stick: Joystick,
        right_stick: Joystick,
    },
    UURC {
        hold: Button,
        trigger: Button,
        release: Button,
        left_stick: Joystick,
        right_stick: Joystick,
        gyro: Gyro,
    },
    DRC {
        hold: Button,
        trigger: Button,
        release: Button,
        left_stick: Joystick,
        right_stick: Joystick,
        gyro: Gyro,
        touch: Touch,
    },
}

impl<P, G, T> Input<P, G, T> {
    /// The held buttons, whatever the device.
    pub open spec fn held(self) -> Button {
        match self {
            Input::Wiimote { hold, .. } => hold,
            Input::Nunchuk { hold, .. } => hold,
            Input::WiimotePlus { hold, .. } => hold,
            Input::NunchukPlus { hold, .. } => hold,
            Input::Classic { hold, .. } => hold,
            Input::UURC { hold, .. } => hold,
            Input::DRC { hold, .. } => hold,
        }
    }

    /// The buttons pressed since the last sample, whatever the device.
    pub open spec fn triggered(self) -> Button {
        match self {
            Input::Wiimote { trigger, .. } => trigger,
            Input::Nunchuk { trigger, .. } => trigger,
            Input::WiimotePlus { trigger, .. } => trigger,
            Input::NunchukPlus { trigger, .. } => trigger,
            Input::Classic { trigger, .. } => trigger,
            Input::UURC { trigger, .. } => trigger,
            Input::DRC { trigger, .. } => trigger,
        }
    }

    /// The buttons let go since the last sample, whatever the device.
    pub open spec fn released(self) -> Button {
        match self {
            Input::Wiimote { release, .. } => release,
            Input::Nunchuk { release, .. } => release,
            Input::WiimotePlus { release, .. } => release,
            Input::NunchukPlus { release, .. } => release,
            Input::Classic { release, .. } => release,
            Input::UURC { release, .. } => release,
            Input::DRC { release, .. } => release,
        }
    }

    /// The left (or only) stick of the device, if it has one.
    pub open spec fn spec_left_stick(self) -> Option<Joystick> {
        match self {
            Input::Nunchuk { stick, .. } => Some(stick),
            Input::NunchukPlus { stick, .. } => Some(stick),
            Input::Classic { left_stick, .. } => Some(left_stick),
            Input::UURC { left_stick, .. } => Some(left_stick),
            Input::DRC { left_stick, .. } => Some(left_stick),
            _ => None,
        }
    }

    /// The right stick of the device, if it has one.
    pub open spec fn spec_right_stick(self) -> Option<Joystick> {
        match self {
            Input::Classic { right_stick, .. } => Some(right_stick),
            Input::UURC { right_stick, .. } => Some(right_stick),
            Input::DRC { right_stick, .. } => Some(right_stick),
            _ => None,
        }
    }

    /// Convenience method for held buttons regardless of input device.
    pub fn hold(&self) -> (r: Button)
        ensures
            r == self.held(),
    {
        match self {
            Input::Wiimote { hold, .. } => *hold,
            Input::Nunchuk { hold, .. } => *hold,
            Input::WiimotePlus { hold, .. } => *hold,
            Input::NunchukPlus { hold, .. } => *hold,
            Input::Classic { hold, .. } => *hold,
            Input::UURC { hold, .. } => *hold,
            Input::DRC { hold, .. } => *hold,
        }
    }

    /// Convenience method for triggered buttons regardless of input device.
    pub fn trigger(&self) -> (r: Button)
        ensures
            r == self.triggered(),
    {
        match self {
            Input::Wiimote { trigger, .. } => *trigger,
            Input::Nunchuk { trigger, .. } => *trigger,
            Input::WiimotePlus { trigger, .. } => *trigger,
            Input::NunchukPlus { trigger, .. } => *trigger,
            Input::Classic { trigger, .. } => *trigger,
            Input::UURC { trigger, .. } => *trigger,
            Input::DRC { trigger, .. } => *trigger,
        }
    }

    /// Convenience method for released buttons regardless of input device.
    pub fn release(&self) -> (r: Button)
        ensures
            r == self.released(),
    {
        match self {
            Input::Wiimote { release, .. } => *release,
            Input::Nunchuk { release, .. } => *release,
            Input::WiimotePlus { release, .. } => *release,
            Input::NunchukPlus { release, .. } => *release,
            Input::Classic { release, .. } => *release,
            Input::UURC { release, .. } => *release,
            Input::DRC { release, .. } => *release,
        }
    }

    /// Convenience method for left joystick. Returns `None` if controller does not have a (left) stick.
    ///
    /// Nunchuks stick is considers left stick.
    pub fn left_stick(&self) -> (r: Option<Joystick>)
        ensures
            r == self.spec_left_stick(),
    {
        match self {
            Input::Nunchuk { stick, .. } => Some(*stick),
            Input::NunchukPlus { stick, .. } => Some(*stick),
            Input::Classic { left_stick, .. } => Some(*left_stick),
            Input::UURC { left_stick, .. } => Some(*left_stick),
            Input::DRC { left_stick, .. } => Some(*left_stick),
            _ => None,
        }
    }

    /// Convenience method for the right joystick. Returns `None` if controller does not have a right stick.
    pub fn right_stick(&self) -> (r: Option<Joystick>)
        ensures
            r == self.spec_right_stick(),
    {
        match self {
            Input::Classic { right_stick, .. } => Some(*right_stick),
            Input::UURC { right_stick, .. } => Some(*right_stick),
            Input::DRC { right_stick, .. } => Some(*right_stick),
            _ => None,
        }
    }

    /// Checks if input is from a Wiimote.
    pub fn is_wiimote(&self) -> (r: bool)
        ensures
            r == (*self is Wiimote),
    {
        matches!(self, Input::Wiimote { .. })
    }

    /// Checks if input is from a Wiimote + Nunchuk.
    pub fn is_nunchuk(&self) -> (r: bool)
        ensures
            r == (*self is Nunchuk),
    {
        matches!(self, Input::Nunchuk { .. })
    }

    /// Checks if input is from a Motion Plus.
    pub fn is_wiimote_plus(&self) -> (r: bool)
        ensures
            r == (*self is WiimotePlus),
    {
        matches!(self, Input::WiimotePlus { .. })
    }

    /// Checks if input is from a Motion Plus + Nunchuk.
    pub fn is_nunchuk_plus(&self) -> (r: bool)
        ensures
            r == (*self is NunchukPlus),
    {
        matches!(self, Input::NunchukPlus { .. })
    }

    /// Checks if input is from a Wii Classic Controller.
    pub fn is_classic(&self) -> (r: bool)
        ensures
            r == (*self is Classic),
    {
        matches!(self, Input::Classic { .. })
    }

    /// Checks if input is from a Wii U Pro Controller (URCC).
    pub fn is_urcc(&self) -> (r: bool)
        ensures
            r == (*self is UURC),
    {
        matches!(self, Input::UURC { .. })
    }

    /// Checks if input is from a Display Remote Controller.
    pub fn is_drc(&self) -> (r: bool)
        ensures
            r == (*self is DRC),
    {
        matches!(self, Input::DRC { .. })
    }

    /// Checks if a button is held.
    pub fn is_held(&self, button: Button) -> (r: bool)
        ensures
            r == self.held().includes(button),
    {
        self.hold().contains(button)
    }

    /// Checks if a button is triggered.
    pub fn is_triggered(&self, button: Button) -> (r: bool)
        ensures
            r == self.triggered().includes(button),
    {
        self.trigger().contains(button)
    }

    /// Checks if a button is released.
    pub fn is_released(&self, button: Button) -> (r: bool)
        ensures
            r == self.released().includes(button),
    {
        self.release().contains(button)
    }
}

/// The extension plugged into a Wiimote, as the system reports it.
#[derive(Debug, Clone, Copy, PartialEq, Eq, Structural)]
pub enum ExtensionType {
    Core,
    Nunchuk,
    Classic,
    MotionPlus,
    MotionPlusNunchuk,
    MotionPlusClassic,
    Urcc,
    /// Any other device code (a balance board, or a device not yet identified).
    Other(u8),
}

/// Native button bits and stick of a Nunchuk sample.
#[derive(Debug, Default, Clone, Copy, PartialEq, Eq, Structural)]
pub struct NunchukSample {
    pub hold: u32,
    pub trigger: u32,
    pub release: u32,
    pub stick: Joystick,
}

/// Native button bits and sticks of a Classic or Pro Controller sample.
#[derive(Debug, Default, Clone, Copy, PartialEq, Eq, Structural)]
pub struct TwinStickSample {
    pub hold: u32,
    pub trigger: u32,
    pub release: u32,
    pub left_stick: Joystick,
    pub right_stick: Joystick,
}

/// A Wiimote-family sample: the core buttons, and the extension data read as
/// each kind of extension (only the one that matches `extension_type` is meaningful).
#[derive(Debug, Clone, Copy, PartialEq, Eq, Structural)]
pub struct KpadStatus {
    pub extension_type: ExtensionType,
    pub hold: u32,
    pub trigger: u32,
    pub release: u32,
    pub nunchuk: NunchukSample,
    pub classic: TwinStickSample,
    pub urcc: TwinStickSample,
}

/// A DRC sample: its native button bits and both sticks.
#[derive(Debug, Default, Clone, Copy, PartialEq, Eq, Structural)]
pub struct VpadStatus {
    pub hold: u32,
    pub trigger: u32,
    pub release: u32,
    pub left_stick: Joystick,
    pub right_stick: Joystick,
}

/// Which of the three button sets of a sample is meant.
pub enum Edge {
    Held,
    Pressed,
    Let,
}

/// The core bits of a Wiimote sample for one of its button sets.
pub open spec fn core_bits(s: KpadStatus, e: Edge) -> u32 {
    match e {
        Edge::Held => s.hold,
        Edge::Pressed => s.trigger,
        Edge::Let => s.release,
    }
}

/// Whether the button `f` is in the given set of a Wiimote-family sample: the
/// core bits count for every device; a Nunchuk, a Classic Controller (with or
/// without Motion Plus) and a Pro Controller add their own bits.
pub open spec fn kpad_has(s: KpadStatus, e: Edge, f: ButtonFlag) -> bool {
    let pick = |h: u32, t: u32, r: u32|
        match e {
            Edge::Held => h,
            Edge::Pressed => t,
            Edge::Let => r,
        };
    maps_to(core_bits(s, e), wpad_table(), f) || match s.extension_type {
        ExtensionType::Nunchuk => maps_to(
            pick(s.nunchuk.hold, s.nunchuk.trigger, s.nunchuk.release),
            nunchuk_table(),
            f,
        ),
        ExtensionType::Classic | ExtensionType::MotionPlusClassic => maps_to(
            pick(s.classic.hold, s.classic.trigger, s.classic.release),
            classic_table(),
            f,
        ),
        ExtensionType::Urcc => maps_to(
            pick(s.urcc.hold, s.urcc.trigger, s.urcc.release),
            urcc_table(),
            f,
        ),
        _ => false,
    }
}

/// The shape of input (which variant, which sticks, pointer and gyro) that a
/// Wiimote-family sample gives.
pub open spec fn kpad_shape<P, G, T>(s: KpadStatus, r: Input<P, G, T>, pointer: P, gyro: G) -> bool {
    match s.extension_type {
        ExtensionType::Core | ExtensionType::Other(_) => r matches Input::Wiimote {
            pointer: p,
            ..
        } && p == pointer,
        ExtensionType::Nunchuk => r matches Input::Nunchuk { stick, pointer: p, .. } && stick
            == s.nunchuk.stick && p == pointer,
        ExtensionType::MotionPlus => r matches Input::WiimotePlus { pointer: p, gyro: g, .. } && p
            == pointer && g == gyro,
        ExtensionType::MotionPlusNunchuk => r matches Input::NunchukPlus {
            stick,
            pointer: p,
            gyro: g,
            ..
        } && stick == s.nunchuk.stick && p == pointer && g == gyro,
        ExtensionType::Classic | ExtensionType::MotionPlusClassic => r matches Input::Classic {
            left_stick,
            right_stick,
            ..
        } && left_stick == s.classic.left_stick && right_stick == s.classic.right_stick,
        ExtensionType::Urcc => r matches Input::UURC { left_stick, right_stick, gyro: g, .. }
            && left_stick == s.urcc.left_stick && right_stick == s.urcc.right_stick && g == gyro,
    }
}

impl<P, G, T> Input<P, G, T> {
    /// The input of a Wiimote-family sample, with the pointer and gyro data that
    /// the application read from the same sample.
    pub fn from_kpad(s: &KpadStatus, pointer: P, gyro: G) -> (r: Self)
        ensures
            kpad_shape(*s, r, pointer, gyro),
            forall|f: ButtonFlag| #[trigger] r.held().has(f) == kpad_has(*s, Edge::Held, f),
            forall|f: ButtonFlag| #[trigger] r.triggered().has(f) == kpad_has(*s, Edge::Pressed, f),
            forall|f: ButtonFlag| #[trigger] r.released().has(f) == kpad_has(*s, Edge::Let, f),
            r.held()@ & !all_bits() == 0,
            r.triggered()@ & !all_bits() == 0,
            r.released()@ & !all_bits() == 0,
    {
        match s.extension_type {
            ExtensionType::Nunchuk => Input::Nunchuk {
                hold: Button::from_wpad(s.hold).union(Button::from_nunchuk(s.nunchuk.hold)),
                trigger: Button::from_wpad(s.trigger).union(Button::from_nunchuk(s.nunchuk.trigger)),
                release: Button::from_wpad(s.release).union(Button::from_nunchuk(s.nunchuk.release)),
                stick: s.nunchuk.stick,
                pointer,
            },
            ExtensionType::MotionPlus => Input::WiimotePlus {
                hold: Button::from_wpad(s.hold),
                trigger: Button::from_wpad(s.trigger),
                release: Button::from_wpad(s.release),
                pointer,
                gyro,
            },
            ExtensionType::MotionPlusNunchuk => Input::NunchukPlus {
                hold: Button::from_wpad(s.hold),
                trigger: Button::from_wpad(s.trigger),
                release: Button::from_wpad(s.release),
                stick: s.nunchuk.stick,
                pointer,
                gyro,
            },
            ExtensionType::Classic | ExtensionType::MotionPlusClassic => Input::Classic {
                hold: Button::from_wpad(s.hold).union(Button::from_classic(s.classic.hold)),
                trigger: Button::from_wpad(s.trigger).union(Button::from_classic(s.classic.trigger)),
                release: Button::from_wpad(s.release).union(Button::from_classic(s.classic.release)),
                left_stick: s.classic.left_stick,
                right_stick: s.classic.right_stick,
            },
            ExtensionType::Urcc => Input::UURC {
                hold: Button::from_wpad(s.hold).union(Button::from_urcc(s.urcc.hold)),
                trigger: Button::from_wpad(s.trigger).union(Button::from_urcc(s.urcc.trigger)),
                release: Button::from_wpad(s.release).union(Button::from_urcc(s.urcc.release)),
                left_stick: s.urcc.left_stick,
                right_stick: s.urcc.right_stick,
                gyro,
            },
            // A bare Wiimote; devices the library does not know still give their
            // generic Wiimote data.
            _ => Input::Wiimote {
                hold: Button::from_wpad(s.hold),
                trigger: Button::from_wpad(s.trigger),
                release: Button::from_wpad(s.release),
                pointer,
            },
        }
    }

    /// The input of a DRC sample, with the gyro and touch data that the
    /// application read from the same sample.
    pub fn from_vpad(s: &VpadStatus, gyro: G, touch: T) -> (r: Self)
        ensures
            r matches Input::DRC { left_stick, right_stick, gyro: g, touch: t, .. } && left_stick
                == s.left_stick && right_stick == s.right_stick && g == gyro && t == touch,
            forall|f: ButtonFlag| #[trigger] r.held().has(f) == maps_to(s.hold, vpad_table(), f),
            forall|f: ButtonFlag| #[trigger] r.triggered().has(f) == maps_to(
                s.trigger,
                vpad_table(),
                f,
            ),
            forall|f: ButtonFlag| #[trigger] r.released().has(f) == maps_to(
                s.release,
                vpad_table(),
                f,
            ),
            r.held()@ & !all_bits() == 0,
            r.triggered()@ & !all_bits() == 0,
            r.released()@ & !all_bits() == 0,
    {
        Input::DRC {
            hold: Button::from_vpad(s.hold),
            trigger: Button::from_vpad(s.trigger),
            release: Button::from_vpad(s.release),
            left_stick: s.left_stick,
            right_stick: s.right_stick,
            gyro,
            touch,
        }
    }
}

/// How a poll of one port ended, as the system reports it.
#[derive(Debug, Clone, Copy, PartialEq, Eq, Structural)]
pub enum PadError {
    /// A sample was read.
    Success,
    /// No new sample since the last poll.
    NoSamples,
    /// Any other error (the controller is not connected, for instance).
    Other,
}

/// Marker for the configuration step before the gamepads are set up; the
/// pointer, gyro and touch types are chosen here.
pub struct GamepadsConfig<P, G, T>(core::marker::PhantomData<(P, G, T)>);

impl<P, G, T> GamepadsConfig<P, G, T> {
    pub fn new() -> (r: Self) {
        GamepadsConfig(core::marker::PhantomData)
    }
}

/// The latest input of every port. The state only changes when a poll result
/// is recorded, so that an application controls when input is captured.
pub struct Gamepads<Pointer = (), Gyro = (), Touch = ()> {
    inputs: Vec<Option<Input<Pointer, Gyro, Touch>>>,
}

impl<P, G, T> Gamepads<P, G, T> {
    /// The cache has exactly one slot per port.
    pub closed spec fn wf(self) -> bool {
        self.inputs.len() == 8
    }

    /// The cached input of each port, indexed by slot.
    pub closed spec fn slots(self) -> Seq<Option<Input<P, G, T>>> {
        self.inputs@
    }

    /// The cached input of port `p`.
    pub open spec fn input_at(self, p: Port) -> Option<Input<P, G, T>> {
        self.slots()[port_index(p) as int]
    }

    /// Whether some connected port has an input for which `pred` holds.
    pub open spec fn any_port(self, pred: spec_fn(Input<P, G, T>) -> bool) -> bool {
        exists|p: Port| #[trigger] self.input_at(p) matches Some(i) && pred(i)
    }

    /// A cache in which no port has input yet.
    pub fn new() -> (r: Self)
        ensures
            r.wf(),
            forall|p: Port| #[trigger] r.input_at(p) is None,
    {
        let mut inputs: Vec<Option<Input<P, G, T>>> = Vec::new();
        let mut i: usize = 0;
        while i < 8
            invariant
                i <= 8,
                inputs@.len() == i,
                forall|j: int| 0 <= j < i ==> #[trigger] inputs@[j] is None,
            decreases 8 - i,
        {
            inputs.push(None);
            i = i + 1;
        }
        Gamepads { inputs }
    }

    /// Starts the configuration of the gamepads.
    pub fn config() -> (r: GamepadsConfig<P, G, T>) {
        GamepadsConfig::new()
    }

    /// Returns the input of a single port from cache.
    pub fn port(&self, port: Port) -> (r: Option<&Input<P, G, T>>)
        requires
            self.wf(),
        ensures
            r is Some <==> self.input_at(port) is Some,
            r is Some ==> self.input_at(port) == Some(*r->0),
    {
        self.inputs[port.index()].as_ref()
    }

    /// Records the outcome of polling `port`: a sample replaces the cached
    /// input, a poll without new samples keeps it, and any other error clears it.
    pub fn record(&mut self, port: Port, read: i32, error: PadError, sample: Input<P, G, T>)
        requires
            old(self).wf(),
        ensures
            final(self).wf(),
            read == 1 && error == PadError::Success ==> final(self).input_at(port) == Some(sample),
            !(read == 1 && error == PadError::Success) && error == PadError::NoSamples
                ==> final(self).input_at(port) == old(self).input_at(port),
            !(read == 1 && error == PadError::Success) && error != PadError::NoSamples
                ==> final(self).input_at(port) is None,
            forall|q: Port| q != port ==> #[trigger] final(self).input_at(q) == old(self).input_at(q),
    {
        let i = port.index();
        if read == 1 && error == PadError::Success {
            self.inputs.set(i, Some(sample));
        } else if error == PadError::NoSamples {
        } else {
            self.inputs.set(i, None);
        }
        proof {
            assert forall|q: Port| q != port implies #[trigger] self.input_at(q) == old(self).input_at(q) by {
                assert(port_index(q) != port_index(port));
            }
        }
    }

    /// Checks if a button is held on any connected gamepad.
    pub fn is_held(&self, button: Button) -> (r: bool)
        requires
            self.wf(),
        ensures
            r == self.any_port(|i: Input<P, G, T>| i.held().includes(button)),
    {
        self.any_input(button, Edge::Held)
    }

    /// Checks if a button is triggered on any connected gamepad.
    pub fn is_triggered(&self, button: Button) -> (r: bool)
        requires
            self.wf(),
        ensures
            r == self.any_port(|i: Input<P, G, T>| i.triggered().includes(button)),
    {
        self.any_input(button, Edge::Pressed)
    }

    /// Checks if a button is released on any connected gamepad.
    pub fn is_released(&self, button: Button) -> (r: bool)
        requires
            self.wf(),
        ensures
            r == self.any_port(|i: Input<P, G, T>| i.released().includes(button)),
    {
        self.any_input(button, Edge::Let)
    }

    /// Checks if a button is held on a specific port.
    pub fn is_held_by(&self, button: Button, port: Port) -> (r: bool)
        requires
            self.wf(),
        ensures
            r == (self.input_at(port) matches Some(i) && i.held().includes(button)),
    {
        match self.port(port) {
            Some(input) => input.is_held(button),
            None => false,
        }
    }

    /// Checks if a button is triggered on a specific port.
    pub fn is_triggered_by(&self, button: Button, port: Port) -> (r: bool)
        requires
            self.wf(),
        ensures
            r == (self.input_at(port) matches Some(i) && i.triggered().includes(button)),
    {
        match self.port(port) {
            Some(input) => input.is_triggered(button),
            None => false,
        }
    }

    /// Checks if a button is released on a specific port.
    pub fn is_released_by(&self, button: Button, port: Port) -> (r: bool)
        requires
            self.wf(),
        ensures
            r == (self.input_at(port) matches Some(i) && i.released().includes(button)),
    {
        match self.port(port) {
            Some(input) => input.is_released(button),
            None => false,
        }
    }

    fn any_input(&self, button: Button, e: Edge) -> (r: bool)
        requires
            self.wf(),
        ensures
            r == self.any_port(|i: Input<P, G, T>| edge_buttons(i, e).includes(button)),
    {
        let ghost pred = |i: Input<P, G, T>| edge_buttons(i, e).includes(button);
        let mut k: usize = 0;
        while k < 8
            invariant
                k <= 8,
                self.inputs@.len() == 8,
                pred == (|i: Input<P, G, T>| edge_buttons(i, e).includes(button)),
                forall|j: int| 0 <= j < k ==> !(#[trigger] self.inputs@[j] matches Some(i) && pred(i)),
            decreases 8 - k,
        {
            let hit = match &self.inputs[k] {
                Some(input) => match e {
                    Edge::Held => input.is_held(button),
                    Edge::Pressed => input.is_triggered(button),
                    Edge::Let => input.is_released(button),
                },
                None => false,
            };
            if hit {
                proof {
                    let p = port_at(k as nat);
                    assert(port_index(p) == k);
                    assert(self.input_at(p) matches Some(i) && pred(i));
                }
                return true;
            }
            k = k + 1;
        }
        proof {
            assert forall|p: Port| !(#[trigger] self.input_at(p) matches Some(i) && pred(i)) by {
                assert(port_index(p) < 8);
            }
        }
        false
    }

    /// The port and input of every connected gamepad, in slot order.
    pub fn connected(&self) -> (r: Vec<(Port, &Input<P, G, T>)>)
        requires
            self.wf(),
        ensures
            forall|j: int| 0 <= j < r@.len() ==> self.input_at(#[trigger] r@[j].0) == Some(*r@[j].1),
            forall|p: Port| self.input_at(p) is Some ==> exists|j: int| 0 <= j < r@.len() && #[trigger] r@[j].0 == p,
            forall|j: int, l: int| 0 <= j < l < r@.len() ==> port_index(#[trigger] r@[j].0) < port_index(#[trigger] r@[l].0),
    {
        let mut r: Vec<(Port, &Input<P, G, T>)> = Vec::new();
        let mut k: usize = 0;
        while k < 8
            invariant
                k <= 8,
                self.inputs@.len() == 8,
                forall|j: int| 0 <= j < r@.len() ==> self.input_at(#[trigger] r@[j].0) == Some(*r@[j].1),
                forall|j: int| 0 <= j < r@.len() ==> port_index(#[trigger] r@[j].0) < k,
                forall|p: Port| port_index(p) < k && self.input_at(p) is Some ==> exists|j: int| 0 <= j < r@.len() && #[trigger] r@[j].0 == p,
                forall|j: int, l: int| 0 <= j < l < r@.len() ==> port_index(#[trigger] r@[j].0) < port_index(#[trigger] r@[l].0),
            decreases 8 - k,
        {
            let port = Port::from_index(k);
            assert(port_index(port) == k);
            match &self.inputs[k] {
                Some(input) => {
                    let ghost before = r@;
                    r.push((port, input));
                    proof {
                        let n = r@.len() - 1;
                        assert(r@[n].0 == port);
                        assert forall|p: Port| port_index(p) < k + 1 && self.input_at(p) is Some implies exists|j: int| 0 <= j < r@.len() && #[trigger] r@[j].0 == p by {
                            if port_index(p) == k {
                                assert(p == port);
                                assert(r@[n].0 == p);
                            } else {
                                let j = choose|j: int| 0 <= j < before.len() && #[trigger] before[j].0 == p;
                                assert(r@[j] == before[j]);
                            }
                        }
                    }
                },
                None => {
                    proof {
                        assert forall|p: Port| port_index(p) < k + 1 && self.input_at(p) is Some implies exists|j: int| 0 <= j < r@.len() && #[trigger] r@[j].0 == p by {
                            if port_index(p) == k {
                                assert(p == port);
                            }
                        }
                    }
                },
            }
            k = k + 1;
        }
        proof {
            assert forall|p: Port| self.input_at(p) is Some implies exists|j: int| 0 <= j < r@.len() && #[trigger] r@[j].0 == p by {
                assert(port_index(p) < 8);
            }
        }
        r
    }
}

/// A button held on some port is held on some connected gamepad.
pub proof fn lemma_port_hit_is_any_hit<P, G, T>(pads: Gamepads<P, G, T>, button: Button, port: Port)
    requires
        pads.input_at(port) matches Some(i) && i.held().includes(button),
    ensures
        pads.any_port(|i: Input<P, G, T>| i.held().includes(button)),
{
    let pred = |i: Input<P, G, T>| i.held().includes(button);
    assert(pads.input_at(port) matches Some(i) && pred(i));
}

/// One of the three button sets of an input.
pub open spec fn edge_buttons<P, G, T>(i: Input<P, G, T>, e: Edge) -> Button {
    match e {
        Edge::Held => i.held(),
        Edge::Pressed => i.triggered(),
        Edge::Let => i.released(),
    }
}

/// The cache slot of every port is that port's own: slots and ports correspond one to one.
pub proof fn lemma_port_slots_bijective(p: Port, i: nat)
    ensures
        port_index(p) < 8,
        port_at(port_index(p)) == p,
        i < 8 ==> port_index(port_at(i)) == i,
{
}

} // verus!

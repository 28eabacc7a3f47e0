use cafe_rs::gamepad::button::{Button, ButtonFlag};
use cafe_rs::gamepad::{
    ExtensionType, Gamepads, Input, Joystick, KpadStatus, NunchukSample, PadError, Port,
    TwinStickSample, VpadStatus,
};

fn b(flags: &[ButtonFlag]) -> Button {
    let mut r = Button::empty();
    for f in flags {
        r = r.with(*f);
    }
    r
}

fn kpad(ext: ExtensionType) -> KpadStatus {
    KpadStatus {
        extension_type: ext,
        hold: 0x0800,    // A
        trigger: 0x0400, // B
        release: 0x8000, // Home
        nunchuk: NunchukSample {
            hold: 0x2000, // Z
            trigger: 0x4000, // C
            release: 0x0001, // stick left
            stick: Joystick { x_bits: 1, y_bits: 2 },
        },
        classic: TwinStickSample {
            hold: 0x0008, // X
            trigger: 0x0020, // Y
            release: 0x0001_0000, // left stick left
            left_stick: Joystick { x_bits: 3, y_bits: 4 },
            right_stick: Joystick { x_bits: 5, y_bits: 6 },
        },
        urcc: TwinStickSample {
            hold: 0x0001_0000, // R3
            trigger: 0x0002_0000, // L3
            release: 0x0200_0000, // right stick up
            left_stick: Joystick { x_bits: 7, y_bits: 8 },
            right_stick: Joystick { x_bits: 9, y_bits: 10 },
        },
    }
}

#[test]
fn button_sets() {
    let ab = b(&[ButtonFlag::A, ButtonFlag::B]);
    assert_eq!(ab.bits(), 0b11);
    assert!(ab.contains(Button::single(ButtonFlag::A)));
    assert!(!ab.contains(Button::single(ButtonFlag::X)));
    assert!(ab.contains(Button::empty()));
    assert!(ab.intersects(b(&[ButtonFlag::B, ButtonFlag::Y])));
    assert_eq!(Button::single(ButtonFlag::TV).bits(), 1 << 30);
    assert_eq!(Button::from_bits_truncate(u32::MAX), Button::all());
    assert_eq!(Button::from_bits(1 << 31), None);
    assert_eq!(Button::from_bits(0b101).map(|x| x.bits()), Some(0b101));
    assert_eq!(ab.union(Button::single(ButtonFlag::X)).bits(), 0b111);
}

#[test]
fn drc_buttons_map() {
    let held = Button::from_vpad(0x8000 | 0x0001_0000 | 0x4000_0000);
    assert_eq!(held, b(&[ButtonFlag::A, ButtonFlag::TV, ButtonFlag::LStickLeft]));
    assert_eq!(Button::from_vpad(0), Button::empty());
    assert_eq!(Button::from_vpad(0x0001), Button::single(ButtonFlag::Sync));
}

#[test]
fn wiimote_family_buttons_map() {
    assert_eq!(Button::from_wpad(0x0100 | 0x0200), b(&[ButtonFlag::Two, ButtonFlag::One]));
    assert_eq!(Button::from_nunchuk(0x6000), b(&[ButtonFlag::Z, ButtonFlag::C]));
    assert_eq!(Button::from_classic(0x0080_0000 | 0x0010), b(&[ButtonFlag::RStickUp, ButtonFlag::A]));
    assert_eq!(Button::from_urcc(0x0001_0000 | 0x0020_0000), b(&[ButtonFlag::R3, ButtonFlag::LStickUp]));
    // bits that stand for no button are dropped
    assert_eq!(Button::from_wpad(0x0020), Button::empty());
}

#[test]
fn bare_wiimote_input() {
    let i: Input = Input::from_kpad(&kpad(ExtensionType::Core), (), ());
    assert!(i.is_wiimote());
    assert_eq!(i.hold(), Button::single(ButtonFlag::A));
    assert_eq!(i.trigger(), Button::single(ButtonFlag::B));
    assert_eq!(i.release(), Button::single(ButtonFlag::Home));
    assert_eq!(i.left_stick(), None);
    assert_eq!(i.right_stick(), None);
}

#[test]
fn unknown_extension_gives_generic_wiimote_input() {
    let i: Input = Input::from_kpad(&kpad(ExtensionType::Other(0x2a)), (), ());
    assert!(i.is_wiimote());
    assert_eq!(i.release(), Button::single(ButtonFlag::Home));
}

#[test]
fn nunchuk_merges_its_buttons() {
    let i: Input = Input::from_kpad(&kpad(ExtensionType::Nunchuk), (), ());
    assert!(i.is_nunchuk());
    assert_eq!(i.hold(), b(&[ButtonFlag::A, ButtonFlag::Z]));
    assert_eq!(i.trigger(), b(&[ButtonFlag::B, ButtonFlag::C]));
    assert_eq!(i.release(), b(&[ButtonFlag::Home, ButtonFlag::LStickLeft]));
    assert_eq!(i.left_stick(), Some(Joystick { x_bits: 1, y_bits: 2 }));
    assert!(i.is_held(Button::single(ButtonFlag::Z)));
    assert!(!i.is_held(Button::single(ButtonFlag::C)));
}

#[test]
fn motion_plus_nunchuk_keeps_core_buttons_only() {
    let i: Input = Input::from_kpad(&kpad(ExtensionType::MotionPlusNunchuk), (), ());
    assert!(i.is_nunchuk_plus());
    assert_eq!(i.hold(), Button::single(ButtonFlag::A));
    assert_eq!(i.left_stick(), Some(Joystick { x_bits: 1, y_bits: 2 }));
    assert_eq!(i.right_stick(), None);
    let j: Input = Input::from_kpad(&kpad(ExtensionType::MotionPlus), (), ());
    assert!(j.is_wiimote_plus());
    assert_eq!(j.release(), Button::single(ButtonFlag::Home));
}

#[test]
fn classic_and_pro_controllers() {
    for ext in [ExtensionType::Classic, ExtensionType::MotionPlusClassic] {
        let i: Input = Input::from_kpad(&kpad(ext), (), ());
        assert!(i.is_classic());
        assert_eq!(i.hold(), b(&[ButtonFlag::A, ButtonFlag::X]));
        assert_eq!(i.left_stick(), Some(Joystick { x_bits: 3, y_bits: 4 }));
        assert_eq!(i.right_stick(), Some(Joystick { x_bits: 5, y_bits: 6 }));
    }
    let p: Input = Input::from_kpad(&kpad(ExtensionType::Urcc), (), ());
    assert!(p.is_urcc());
    assert_eq!(p.hold(), b(&[ButtonFlag::A, ButtonFlag::R3]));
    assert_eq!(p.trigger(), b(&[ButtonFlag::B, ButtonFlag::L3]));
    assert_eq!(p.release(), b(&[ButtonFlag::Home, ButtonFlag::RStickUp]));
    assert_eq!(p.right_stick(), Some(Joystick { x_bits: 9, y_bits: 10 }));
}

#[test]
fn drc_input() {
    let s = VpadStatus {
        hold: 0x8000,
        trigger: 0x4000,
        release: 0x2000,
        left_stick: Joystick { x_bits: 11, y_bits: 12 },
        right_stick: Joystick { x_bits: 13, y_bits: 14 },
    };
    let i: Input = Input::from_vpad(&s, (), ());
    assert!(i.is_drc());
    assert!(i.is_held(Button::single(ButtonFlag::A)));
    assert!(i.is_triggered(Button::single(ButtonFlag::B)));
    assert!(i.is_released(Button::single(ButtonFlag::X)));
    assert_eq!(i.left_stick(), Some(Joystick { x_bits: 11, y_bits: 12 }));
    assert_eq!(i.right_stick(), Some(Joystick { x_bits: 13, y_bits: 14 }));
}

#[test]
fn ports_and_slots_correspond() {
    let ports = [Port::P0, Port::P1, Port::P2, Port::P3, Port::P4, Port::P5, Port::P6, Port::DRC];
    for (i, p) in ports.iter().enumerate() {
        assert_eq!(p.index(), i);
        assert_eq!(Port::from_index(i), *p);
    }
}

#[test]
fn cache_follows_poll_outcomes() {
    let mut pads: Gamepads = Gamepads::new();
    assert!(pads.port(Port::DRC).is_none());
    assert!(!pads.is_held(Button::single(ButtonFlag::A)));

    let wiimote: Input = Input::from_kpad(&kpad(ExtensionType::Core), (), ());
    pads.record(Port::P2, 1, PadError::Success, wiimote.clone());
    assert_eq!(pads.port(Port::P2), Some(&wiimote));
    assert!(pads.is_held(Button::single(ButtonFlag::A)));
    assert!(pads.is_held_by(Button::single(ButtonFlag::A), Port::P2));
    assert!(!pads.is_held_by(Button::single(ButtonFlag::A), Port::P3));
    assert!(pads.is_triggered(Button::single(ButtonFlag::B)));
    assert!(pads.is_released_by(Button::single(ButtonFlag::Home), Port::P2));
    assert!(!pads.is_released(Button::single(ButtonFlag::B)));

    // no new samples: the cached input stays
    pads.record(Port::P2, 0, PadError::NoSamples, Input::from_kpad(&kpad(ExtensionType::Nunchuk), (), ()));
    assert_eq!(pads.port(Port::P2), Some(&wiimote));

    // a read of the wrong count is not a sample
    pads.record(Port::P2, 0, PadError::Success, wiimote.clone());
    assert_eq!(pads.port(Port::P2), None);

    pads.record(Port::P2, 1, PadError::Success, wiimote.clone());
    pads.record(Port::P2, 1, PadError::Other, wiimote.clone());
    assert_eq!(pads.port(Port::P2), None);
    assert!(!pads.is_triggered_by(Button::single(ButtonFlag::B), Port::P2));
}

#[test]
fn connected_lists_ports_in_order() {
    let mut pads: Gamepads = Gamepads::new();
    let drc: Input = Input::from_vpad(&VpadStatus::default(), (), ());
    let wiimote: Input = Input::from_kpad(&kpad(ExtensionType::Core), (), ());
    pads.record(Port::DRC, 1, PadError::Success, drc.clone());
    pads.record(Port::P1, 1, PadError::Success, wiimote.clone());
    let list = pads.connected();
    assert_eq!(list.len(), 2);
    assert_eq!(list[0].0, Port::P1);
    assert_eq!(list[0].1, &wiimote);
    assert_eq!(list[1].0, Port::DRC);
    assert_eq!(list[1].1, &drc);
}

#[test]
fn vpad_mapping_distributes_over_union() {
    let pairs = [
        (0x8000u32, 0x0001_0000u32),
        (0x4000_0000, 0x4000_0000 | 0x0002),
        (0xFFFF_FFFF, 0x0000_0100),
        (0x0080_0000 | 0x0020, 0),
    ];
    for (a, c) in pairs {
        assert_eq!(
            Button::from_vpad(a | c),
            Button::from_vpad(a).union(Button::from_vpad(c))
        );
    }
    assert_eq!(Button::from_vpad(0), Button::empty());
    let wiimote_only = b(&[ButtonFlag::One, ButtonFlag::Two, ButtonFlag::Z, ButtonFlag::C]);
    assert!(!Button::from_vpad(0xFFFF_FFFF).intersects(wiimote_only));
}

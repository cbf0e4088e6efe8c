use lwar::input::{decode, encode, parse_key_frame, Key, KeyStroke, RawKeyFrame};

fn keyboard_frame(virtual_key: u32, scan_code: u32) -> RawKeyFrame {
    RawKeyFrame {
        keyboard: true,
        virtual_key,
        scan_code,
        extended: false,
        e1: false,
        released: false,
    }
}

#[test]
fn round_trip_covers_every_key_with_a_code() {
    let keys = vec![
        Key::A,
        Key::B,
        Key::C,
        Key::D,
        Key::E,
        Key::F,
        Key::G,
        Key::H,
        Key::I,
        Key::J,
        Key::K,
        Key::L,
        Key::M,
        Key::N,
        Key::O,
        Key::P,
        Key::Q,
        Key::R,
        Key::S,
        Key::T,
        Key::U,
        Key::V,
        Key::W,
        Key::X,
        Key::Y,
        Key::Z,
        Key::Num0,
        Key::Num1,
        Key::Num2,
        Key::Num3,
        Key::Num4,
        Key::Num5,
        Key::Num6,
        Key::Num7,
        Key::Num8,
        Key::Num9,
        Key::Escape,
        Key::LeftControl,
        Key::LeftShift,
        Key::LeftAlt,
        Key::LeftSystem,
        Key::RightControl,
        Key::RightShift,
        Key::RightAlt,
        Key::RightSystem,
        Key::Menu,
        Key::LeftBracket,
        Key::RightBracket,
        Key::Semicolon,
        Key::Comma,
        Key::Period,
        Key::Quote,
        Key::Slash,
        Key::BackSlash,
        Key::Grave,
        Key::Equal,
        Key::Dash,
        Key::Space,
        Key::Return,
        Key::Back,
        Key::Tab,
        Key::PageUp,
        Key::PageDown,
        Key::End,
        Key::Home,
        Key::Insert,
        Key::Delete,
        Key::Add,
        Key::Subtract,
        Key::Multiply,
        Key::Divide,
        Key::Left,
        Key::Right,
        Key::Up,
        Key::Down,
        Key::Numpad0,
        Key::Numpad1,
        Key::Numpad2,
        Key::Numpad3,
        Key::Numpad4,
        Key::Numpad5,
        Key::Numpad6,
        Key::Numpad7,
        Key::Numpad8,
        Key::Numpad9,
        Key::F1,
        Key::F2,
        Key::F3,
        Key::F4,
        Key::F5,
        Key::F6,
        Key::F7,
        Key::F8,
        Key::F9,
        Key::F10,
        Key::F11,
        Key::F12,
        Key::F13,
        Key::F14,
        Key::F15,
        Key::Pause,
        Key::NumpadEnter,
        Key::NumpadDecimal,
        Key::NumLock,
        Key::Scroll,
        Key::Print,
        Key::CapsLock,
        Key::BackSlash2,
    ];
    for key in keys {
        let (virtual_key, extended) = encode(key).expect("every listed key has a code");
        assert_eq!(decode(virtual_key, extended), Some(key));
    }
}

#[test]
fn sentinel_key_has_no_code() {
    assert_eq!(encode(Key::Count), None);
}

#[test]
fn extended_flag_disambiguates_shared_codes() {
    assert_eq!(decode(0x0D, false), Some(Key::Return));
    assert_eq!(decode(0x0D, true), Some(Key::NumpadEnter));
    assert_eq!(decode(0x11, false), Some(Key::LeftControl));
    assert_eq!(decode(0x11, true), Some(Key::RightControl));
    assert_eq!(decode(0x12, false), Some(Key::LeftAlt));
    assert_eq!(decode(0x12, true), Some(Key::RightAlt));
    assert_eq!(decode(0x2D, false), Some(Key::Numpad0));
    assert_eq!(decode(0x2D, true), Some(Key::Insert));
    assert_eq!(decode(0x2E, false), Some(Key::NumpadDecimal));
    assert_eq!(decode(0x2E, true), Some(Key::Delete));
    assert_eq!(decode(0x24, false), Some(Key::Numpad7));
    assert_eq!(decode(0x24, true), Some(Key::Home));
    assert_eq!(decode(0x23, false), Some(Key::Numpad1));
    assert_eq!(decode(0x23, true), Some(Key::End));
    assert_eq!(decode(0x21, false), Some(Key::Numpad9));
    assert_eq!(decode(0x21, true), Some(Key::PageUp));
    assert_eq!(decode(0x22, false), Some(Key::Numpad3));
    assert_eq!(decode(0x22, true), Some(Key::PageDown));
    assert_eq!(decode(0x25, false), Some(Key::Numpad4));
    assert_eq!(decode(0x25, true), Some(Key::Left));
    assert_eq!(decode(0x27, false), Some(Key::Numpad6));
    assert_eq!(decode(0x27, true), Some(Key::Right));
    assert_eq!(decode(0x26, false), Some(Key::Numpad8));
    assert_eq!(decode(0x26, true), Some(Key::Up));
    assert_eq!(decode(0x28, false), Some(Key::Numpad2));
    assert_eq!(decode(0x28, true), Some(Key::Down));
}

#[test]
fn clear_code_is_numpad_five_only_when_not_extended() {
    assert_eq!(decode(0x0C, false), Some(Key::Numpad5));
    assert_eq!(decode(0x0C, true), None);
}

#[test]
fn unmapped_codes_decode_to_nothing() {
    assert_eq!(decode(0x10, false), None);
    assert_eq!(decode(0x10, true), None);
    assert_eq!(decode(0x07, false), None);
    assert_eq!(decode(0xFF, false), None);
}

#[test]
fn generic_shift_resolves_to_left_or_right_never_generic() {
    let left = keyboard_frame(0x10, 0x2A);
    assert_eq!(
        parse_key_frame(&left),
        Some(KeyStroke { key: Key::LeftShift, scan_code: 0x2A, released: false })
    );

    let right = keyboard_frame(0x10, 0x36);
    assert_eq!(
        parse_key_frame(&right),
        Some(KeyStroke { key: Key::RightShift, scan_code: 0x36, released: false })
    );

    let unknown_scan = keyboard_frame(0x10, 0x1E);
    assert_eq!(parse_key_frame(&unknown_scan), None);
}

#[test]
fn non_keyboard_frames_are_rejected() {
    let mut frame = keyboard_frame(0x41, 0x1E);
    frame.keyboard = false;
    assert_eq!(parse_key_frame(&frame), None);
}

#[test]
fn no_mapping_sentinel_is_rejected() {
    let frame = keyboard_frame(0xFF, 0x1E);
    assert_eq!(parse_key_frame(&frame), None);
}

#[test]
fn numlock_gets_its_omitted_scan_code_with_marker_bit() {
    let frame = keyboard_frame(0x90, 0x00);
    assert_eq!(
        parse_key_frame(&frame),
        Some(KeyStroke { key: Key::NumLock, scan_code: 0x145, released: false })
    );
}

#[test]
fn pause_scan_code_is_fixed_for_e1_frames() {
    let mut frame = keyboard_frame(0x13, 0x1D);
    frame.e1 = true;
    assert_eq!(
        parse_key_frame(&frame),
        Some(KeyStroke { key: Key::Pause, scan_code: 0x45, released: false })
    );
}

#[test]
fn released_flag_carries_through() {
    let mut frame = keyboard_frame(0x41, 0x1E);
    frame.released = true;
    assert_eq!(
        parse_key_frame(&frame),
        Some(KeyStroke { key: Key::A, scan_code: 0x1E, released: true })
    );
}

#[test]
fn undecodable_keyboard_frames_are_dropped_not_failed() {
    let frame = keyboard_frame(0x07, 0x00);
    assert_eq!(parse_key_frame(&frame), None);
}

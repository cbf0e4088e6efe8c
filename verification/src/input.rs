//! Decoding of raw keyboard input: a table from the platform's virtual-key
//! codes to logical keys, the inverse table, and the parser that turns one
//! raw input frame into a decoded key stroke.

use vstd::prelude::*;

verus! {

/// A mouse button reported by the platform.
#[derive(Clone, Copy, Debug, PartialEq, Eq, Structural)]
pub enum MouseButton {
    Left,
    Right,
    Middle,
    XButton1,
    XButton2,
    Count,
}

/// A logical key. Modifiers are always disambiguated into their left and
/// right variants; the generic platform codes never appear here.
#[derive(Clone, Copy, Debug, PartialEq, Eq, Structural)]
pub enum Key {
    A,
    B,
    C,
    D,
    E,
    F,
    G,
    H,
    I,
    J,
    K,
    L,
    M,
    N,
    O,
    P,
    Q,
    R,
    S,
    T,
    U,
    V,
    W,
    X,
    Y,
    Z,
    Num0,
    Num1,
    Num2,
    Num3,
    Num4,
    Num5,
    Num6,
    Num7,
    Num8,
    Num9,
    Escape,
    LeftControl,
    LeftShift,
    LeftAlt,
    LeftSystem,
    RightControl,
    RightShift,
    RightAlt,
    RightSystem,
    Menu,
    LeftBracket,
    RightBracket,
    Semicolon,
    Comma,
    Period,
    Quote,
    Slash,
    BackSlash,
    Grave,
    Equal,
    Dash,
    Space,
    Return,
    Back,
    Tab,
    PageUp,
    PageDown,
    End,
    Home,
    Insert,
    Delete,
    Add,
    Subtract,
    Multiply,
    Divide,
    Left,
    Right,
    Up,
    Down,
    Numpad0,
    Numpad1,
    Numpad2,
    Numpad3,
    Numpad4,
    Numpad5,
    Numpad6,
    Numpad7,
    Numpad8,
    Numpad9,
    F1,
    F2,
    F3,
    F4,
    F5,
    F6,
    F7,
    F8,
    F9,
    F10,
    F11,
    F12,
    F13,
    F14,
    F15,
    Pause,
    NumpadEnter,
    NumpadDecimal,
    NumLock,
    Scroll,
    Print,
    CapsLock,
    BackSlash2,
    Count,
}

/// The generic Shift virtual key, which a raw frame must resolve into a
/// left or right variant before decoding.
pub const VK_SHIFT: u32 = 0x10;
/// The generic Control virtual key; the extended flag picks the side.
pub const VK_CONTROL: u32 = 0x11;
/// The generic Alt virtual key; the extended flag picks the side.
pub const VK_MENU: u32 = 0x12;
/// The Pause virtual key, delivered with an E1 prefix.
pub const VK_PAUSE: u32 = 0x13;
/// The Return virtual key; extended means the numpad Enter key.
pub const VK_RETURN: u32 = 0x0D;
/// The NumLock virtual key, whose scan code the platform omits.
pub const VK_NUMLOCK: u32 = 0x90;
/// The virtual key a frame carries when no mapping exists.
pub const VK_NO_MAPPING: u32 = 0xFF;
/// The left Shift virtual key, resolved from scan code 0x2A.
pub const VK_LSHIFT: u32 = 0xA0;
/// The right Shift virtual key, resolved from scan code 0x36.
pub const VK_RSHIFT: u32 = 0xA1;

/// Which logical key a virtual-key code decodes to. The extended flag
/// disambiguates the codes that two physical keys share: Control and Alt
/// split into right (extended) and left variants, Return becomes the numpad
/// Enter when extended, and the navigation keys fall back to the numpad
/// digit that shares their code when the flag is absent.
pub open spec fn decode_spec(virtual_key: u32, extended: bool) -> Option<Key> {
    match virtual_key {
        0x11u32 => Some(if extended { Key::RightControl } else { Key::LeftControl }),
        0x12u32 => Some(if extended { Key::RightAlt } else { Key::LeftAlt }),
        0x0Du32 => Some(if extended { Key::NumpadEnter } else { Key::Return }),
        0x2Du32 => Some(if extended { Key::Insert } else { Key::Numpad0 }),
        0x2Eu32 => Some(if extended { Key::Delete } else { Key::NumpadDecimal }),
        0x24u32 => Some(if extended { Key::Home } else { Key::Numpad7 }),
        0x23u32 => Some(if extended { Key::End } else { Key::Numpad1 }),
        0x21u32 => Some(if extended { Key::PageUp } else { Key::Numpad9 }),
        0x22u32 => Some(if extended { Key::PageDown } else { Key::Numpad3 }),
        0x25u32 => Some(if extended { Key::Left } else { Key::Numpad4 }),
        0x27u32 => Some(if extended { Key::Right } else { Key::Numpad6 }),
        0x26u32 => Some(if extended { Key::Up } else { Key::Numpad8 }),
        0x28u32 => Some(if extended { Key::Down } else { Key::Numpad2 }),
        0x0Cu32 => if extended { None } else { Some(Key::Numpad5) },
        0x41u32 => Some(Key::A),
        0x42u32 => Some(Key::B),
        0x43u32 => Some(Key::C),
        0x44u32 => Some(Key::D),
        0x45u32 => Some(Key::E),
        0x46u32 => Some(Key::F),
        0x47u32 => Some(Key::G),
        0x48u32 => Some(Key::H),
        0x49u32 => Some(Key::I),
        0x4Au32 => Some(Key::J),
        0x4Bu32 => Some(Key::K),
        0x4Cu32 => Some(Key::L),
        0x4Du32 => Some(Key::M),
        0x4Eu32 => Some(Key::N),
        0x4Fu32 => Some(Key::O),
        0x50u32 => Some(Key::P),
        0x51u32 => Some(Key::Q),
        0x52u32 => Some(Key::R),
        0x53u32 => Some(Key::S),
        0x54u32 => Some(Key::T),
        0x55u32 => Some(Key::U),
        0x56u32 => Some(Key::V),
        0x57u32 => Some(Key::W),
        0x58u32 => Some(Key::X),
        0x59u32 => Some(Key::Y),
        0x5Au32 => Some(Key::Z),
        0x30u32 => Some(Key::Num0),
        0x31u32 => Some(Key::Num1),
        0x32u32 => Some(Key::Num2),
        0x33u32 => Some(Key::Num3),
        0x34u32 => Some(Key::Num4),
        0x35u32 => Some(Key::Num5),
        0x36u32 => Some(Key::Num6),
        0x37u32 => Some(Key::Num7),
        0x38u32 => Some(Key::Num8),
        0x39u32 => Some(Key::Num9),
        0x1Bu32 => Some(Key::Escape),
        0xA0u32 => Some(Key::LeftShift),
        0xA1u32 => Some(Key::RightShift),
        0xA2u32 => Some(Key::LeftControl),
        0xA3u32 => Some(Key::RightControl),
        0xA4u32 => Some(Key::LeftAlt),
        0xA5u32 => Some(Key::RightAlt),
        0x5Bu32 => Some(Key::LeftSystem),
        0x5Cu32 => Some(Key::RightSystem),
        0x5Du32 => Some(Key::Menu),
        0xDBu32 => Some(Key::LeftBracket),
        0xDDu32 => Some(Key::RightBracket),
        0xBAu32 => Some(Key::Semicolon),
        0xBCu32 => Some(Key::Comma),
        0xBEu32 => Some(Key::Period),
        0xDEu32 => Some(Key::Quote),
        0xBFu32 => Some(Key::Slash),
        0xDCu32 => Some(Key::BackSlash),
        0xC0u32 => Some(Key::Grave),
        0xBBu32 => Some(Key::Equal),
        0xBDu32 => Some(Key::Dash),
        0x20u32 => Some(Key::Space),
        0x08u32 => Some(Key::Back),
        0x09u32 => Some(Key::Tab),
        0x6Bu32 => Some(Key::Add),
        0x6Du32 => Some(Key::Subtract),
        0x6Au32 => Some(Key::Multiply),
        0x6Fu32 => Some(Key::Divide),
        0x60u32 => Some(Key::Numpad0),
        0x61u32 => Some(Key::Numpad1),
        0x62u32 => Some(Key::Numpad2),
        0x63u32 => Some(Key::Numpad3),
        0x64u32 => Some(Key::Numpad4),
        0x65u32 => Some(Key::Numpad5),
        0x66u32 => Some(Key::Numpad6),
        0x67u32 => Some(Key::Numpad7),
        0x68u32 => Some(Key::Numpad8),
        0x69u32 => Some(Key::Numpad9),
        0x70u32 => Some(Key::F1),
        0x71u32 => Some(Key::F2),
        0x72u32 => Some(Key::F3),
        0x73u32 => Some(Key::F4),
        0x74u32 => Some(Key::F5),
        0x75u32 => Some(Key::F6),
        0x76u32 => Some(Key::F7),
        0x77u32 => Some(Key::F8),
        0x78u32 => Some(Key::F9),
        0x79u32 => Some(Key::F10),
        0x7Au32 => Some(Key::F11),
        0x7Bu32 => Some(Key::F12),
        0x7Cu32 => Some(Key::F13),
        0x7Du32 => Some(Key::F14),
        0x7Eu32 => Some(Key::F15),
        0x13u32 => Some(Key::Pause),
        0x6Eu32 => Some(Key::NumpadDecimal),
        0x90u32 => Some(Key::NumLock),
        0x91u32 => Some(Key::Scroll),
        0x2Cu32 => Some(Key::Print),
        0x14u32 => Some(Key::CapsLock),
        0xE2u32 => Some(Key::BackSlash2),
        _ => None,
    }
}

/// Decodes a virtual-key code into a logical key, exactly as `decode_spec`
/// states; codes with no logical mapping yield nothing.
pub fn decode(virtual_key: u32, extended: bool) -> (r: Option<Key>)
    ensures
        r == decode_spec(virtual_key, extended),
{
    match virtual_key {
        0x11u32 => Some(if extended { Key::RightControl } else { Key::LeftControl }),
        0x12u32 => Some(if extended { Key::RightAlt } else { Key::LeftAlt }),
        0x0Du32 => Some(if extended { Key::NumpadEnter } else { Key::Return }),
        0x2Du32 => Some(if extended { Key::Insert } else { Key::Numpad0 }),
        0x2Eu32 => Some(if extended { Key::Delete } else { Key::NumpadDecimal }),
        0x24u32 => Some(if extended { Key::Home } else { Key::Numpad7 }),
        0x23u32 => Some(if extended { Key::End } else { Key::Numpad1 }),
        0x21u32 => Some(if extended { Key::PageUp } else { Key::Numpad9 }),
        0x22u32 => Some(if extended { Key::PageDown } else { Key::Numpad3 }),
        0x25u32 => Some(if extended { Key::Left } else { Key::Numpad4 }),
        0x27u32 => Some(if extended { Key::Right } else { Key::Numpad6 }),
        0x26u32 => Some(if extended { Key::Up } else { Key::Numpad8 }),
        0x28u32 => Some(if extended { Key::Down } else { Key::Numpad2 }),
        0x0Cu32 => if extended { None } else { Some(Key::Numpad5) },
        0x41u32 => Some(Key::A),
        0x42u32 => Some(Key::B),
        0x43u32 => Some(Key::C),
        0x44u32 => Some(Key::D),
        0x45u32 => Some(Key::E),
        0x46u32 => Some(Key::F),
        0x47u32 => Some(Key::G),
        0x48u32 => Some(Key::H),
        0x49u32 => Some(Key::I),
        0x4Au32 => Some(Key::J),
        0x4Bu32 => Some(Key::K),
        0x4Cu32 => Some(Key::L),
        0x4Du32 => Some(Key::M),
        0x4Eu32 => Some(Key::N),
        0x4Fu32 => Some(Key::O),
        0x50u32 => Some(Key::P),
        0x51u32 => Some(Key::Q),
        0x52u32 => Some(Key::R),
        0x53u32 => Some(Key::S),
        0x54u32 => Some(Key::T),
        0x55u32 => Some(Key::U),
        0x56u32 => Some(Key::V),
        0x57u32 => Some(Key::W),
        0x58u32 => Some(Key::X),
        0x59u32 => Some(Key::Y),
        0x5Au32 => Some(Key::Z),
        0x30u32 => Some(Key::Num0),
        0x31u32 => Some(Key::Num1),
        0x32u32 => Some(Key::Num2),
        0x33u32 => Some(Key::Num3),
        0x34u32 => Some(Key::Num4),
        0x35u32 => Some(Key::Num5),
        0x36u32 => Some(Key::Num6),
        0x37u32 => Some(Key::Num7),
        0x38u32 => Some(Key::Num8),
        0x39u32 => Some(Key::Num9),
        0x1Bu32 => Some(Key::Escape),
        0xA0u32 => Some(Key::LeftShift),
        0xA1u32 => Some(Key::RightShift),
        0xA2u32 => Some(Key::LeftControl),
        0xA3u32 => Some(Key::RightControl),
        0xA4u32 => Some(Key::LeftAlt),
        0xA5u32 => Some(Key::RightAlt),
        0x5Bu32 => Some(Key::LeftSystem),
        0x5Cu32 => Some(Key::RightSystem),
        0x5Du32 => Some(Key::Menu),
        0xDBu32 => Some(Key::LeftBracket),
        0xDDu32 => Some(Key::RightBracket),
        0xBAu32 => Some(Key::Semicolon),
        0xBCu32 => Some(Key::Comma),
        0xBEu32 => Some(Key::Period),
        0xDEu32 => Some(Key::Quote),
        0xBFu32 => Some(Key::Slash),
        0xDCu32 => Some(Key::BackSlash),
        0xC0u32 => Some(Key::Grave),
        0xBBu32 => Some(Key::Equal),
        0xBDu32 => Some(Key::Dash),
        0x20u32 => Some(Key::Space),
        0x08u32 => Some(Key::Back),
        0x09u32 => Some(Key::Tab),
        0x6Bu32 => Some(Key::Add),
        0x6Du32 => Some(Key::Subtract),
        0x6Au32 => Some(Key::Multiply),
        0x6Fu32 => Some(Key::Divide),
        0x60u32 => Some(Key::Numpad0),
        0x61u32 => Some(Key::Numpad1),
        0x62u32 => Some(Key::Numpad2),
        0x63u32 => Some(Key::Numpad3),
        0x64u32 => Some(Key::Numpad4),
        0x65u32 => Some(Key::Numpad5),
        0x66u32 => Some(Key::Numpad6),
        0x67u32 => Some(Key::Numpad7),
        0x68u32 => Some(Key::Numpad8),
        0x69u32 => Some(Key::Numpad9),
        0x70u32 => Some(Key::F1),
        0x71u32 => Some(Key::F2),
        0x72u32 => Some(Key::F3),
        0x73u32 => Some(Key::F4),
        0x74u32 => Some(Key::F5),
        0x75u32 => Some(Key::F6),
        0x76u32 => Some(Key::F7),
        0x77u32 => Some(Key::F8),
        0x78u32 => Some(Key::F9),
        0x79u32 => Some(Key::F10),
        0x7Au32 => Some(Key::F11),
        0x7Bu32 => Some(Key::F12),
        0x7Cu32 => Some(Key::F13),
        0x7Du32 => Some(Key::F14),
        0x7Eu32 => Some(Key::F15),
        0x13u32 => Some(Key::Pause),
        0x6Eu32 => Some(Key::NumpadDecimal),
        0x90u32 => Some(Key::NumLock),
        0x91u32 => Some(Key::Scroll),
        0x2Cu32 => Some(Key::Print),
        0x14u32 => Some(Key::CapsLock),
        0xE2u32 => Some(Key::BackSlash2),
        _ => None,
    }
}

/// The canonical platform code of a logical key: the virtual key together
/// with the extended flag under which `decode_spec` yields the key back.
/// `Key::Count` is a sentinel with no platform code.
pub open spec fn encode_spec(key: Key) -> Option<(u32, bool)> {
    match key {
        Key::A => Some((0x41u32, false)),
        Key::B => Some((0x42u32, false)),
        Key::C => Some((0x43u32, false)),
        Key::D => Some((0x44u32, false)),
        Key::E => Some((0x45u32, false)),
        Key::F => Some((0x46u32, false)),
        Key::G => Some((0x47u32, false)),
        Key::H => Some((0x48u32, false)),
        Key::I => Some((0x49u32, false)),
        Key::J => Some((0x4Au32, false)),
        Key::K => Some((0x4Bu32, false)),
        Key::L => Some((0x4Cu32, false)),
        Key::M => Some((0x4Du32, false)),
        Key::N => Some((0x4Eu32, false)),
        Key::O => Some((0x4Fu32, false)),
        Key::P => Some((0x50u32, false)),
        Key::Q => Some((0x51u32, false)),
        Key::R => Some((0x52u32, false)),
        Key::S => Some((0x53u32, false)),
        Key::T => Some((0x54u32, false)),
        Key::U => Some((0x55u32, false)),
        Key::V => Some((0x56u32, false)),
        Key::W => Some((0x57u32, false)),
        Key::X => Some((0x58u32, false)),
        Key::Y => Some((0x59u32, false)),
        Key::Z => Some((0x5Au32, false)),
        Key::Num0 => Some((0x30u32, false)),
        Key::Num1 => Some((0x31u32, false)),
        Key::Num2 => Some((0x32u32, false)),
        Key::Num3 => Some((0x33u32, false)),
        Key::Num4 => Some((0x34u32, false)),
        Key::Num5 => Some((0x35u32, false)),
        Key::Num6 => Some((0x36u32, false)),
        Key::Num7 => Some((0x37u32, false)),
        Key::Num8 => Some((0x38u32, false)),
        Key::Num9 => Some((0x39u32, false)),
        Key::Escape => Some((0x1Bu32, false)),
        Key::LeftControl => Some((0xA2u32, false)),
        Key::LeftShift => Some((0xA0u32, false)),
        Key::LeftAlt => Some((0xA4u32, false)),
        Key::LeftSystem => Some((0x5Bu32, false)),
        Key::RightControl => Some((0xA3u32, false)),
        Key::RightShift => Some((0xA1u32, false)),
        Key::RightAlt => Some((0xA5u32, false)),
        Key::RightSystem => Some((0x5Cu32, false)),
        Key::Menu => Some((0x5Du32, false)),
        Key::LeftBracket => Some((0xDBu32, false)),
        Key::RightBracket => Some((0xDDu32, false)),
        Key::Semicolon => Some((0xBAu32, false)),
        Key::Comma => Some((0xBCu32, false)),
        Key::Period => Some((0xBEu32, false)),
        Key::Quote => Some((0xDEu32, false)),
        Key::Slash => Some((0xBFu32, false)),
        Key::BackSlash => Some((0xDCu32, false)),
        Key::Grave => Some((0xC0u32, false)),
        Key::Equal => Some((0xBBu32, false)),
        Key::Dash => Some((0xBDu32, false)),
        Key::Space => Some((0x20u32, false)),
        Key::Return => Some((0x0Du32, false)),
        Key::Back => Some((0x08u32, false)),
        Key::Tab => Some((0x09u32, false)),
        Key::PageUp => Some((0x21u32, true)),
        Key::PageDown => Some((0x22u32, true)),
        Key::End => Some((0x23u32, true)),
        Key::Home => Some((0x24u32, true)),
        Key::Insert => Some((0x2Du32, true)),
        Key::Delete => Some((0x2Eu32, true)),
        Key::Add => Some((0x6Bu32, false)),
        Key::Subtract => Some((0x6Du32, false)),
        Key::Multiply => Some((0x6Au32, false)),
        Key::Divide => Some((0x6Fu32, false)),
        Key::Left => Some((0x25u32, true)),
        Key::Right => Some((0x27u32, true)),
        Key::Up => Some((0x26u32, true)),
        Key::Down => Some((0x28u32, true)),
        Key::Numpad0 => Some((0x60u32, false)),
        Key::Numpad1 => Some((0x61u32, false)),
        Key::Numpad2 => Some((0x62u32, false)),
        Key::Numpad3 => Some((0x63u32, false)),
        Key::Numpad4 => Some((0x64u32, false)),
        Key::Numpad5 => Some((0x65u32, false)),
        Key::Numpad6 => Some((0x66u32, false)),
        Key::Numpad7 => Some((0x67u32, false)),
        Key::Numpad8 => Some((0x68u32, false)),
        Key::Numpad9 => Some((0x69u32, false)),
        Key::F1 => Some((0x70u32, false)),
        Key::F2 => Some((0x71u32, false)),
        Key::F3 => Some((0x72u32, false)),
        Key::F4 => Some((0x73u32, false)),
        Key::F5 => Some((0x74u32, false)),
        Key::F6 => Some((0x75u32, false)),
        Key::F7 => Some((0x76u32, false)),
        Key::F8 => Some((0x77u32, false)),
        Key::F9 => Some((0x78u32, false)),
        Key::F10 => Some((0x79u32, false)),
        Key::F11 => Some((0x7Au32, false)),
        Key::F12 => Some((0x7Bu32, false)),
        Key::F13 => Some((0x7Cu32, false)),
        Key::F14 => Some((0x7Du32, false)),
        Key::F15 => Some((0x7Eu32, false)),
        Key::Pause => Some((0x13u32, false)),
        Key::NumpadEnter => Some((0x0Du32, true)),
        Key::NumpadDecimal => Some((0x6Eu32, false)),
        Key::NumLock => Some((0x90u32, false)),
        Key::Scroll => Some((0x91u32, false)),
        Key::Print => Some((0x2Cu32, false)),
        Key::CapsLock => Some((0x14u32, false)),
        Key::BackSlash2 => Some((0xE2u32, false)),
        Key::Count => None,
    }
}

/// Returns the canonical platform code of a logical key, exactly as
/// `encode_spec` states.
pub fn encode(key: Key) -> (r: Option<(u32, bool)>)
    ensures
        r == encode_spec(key),
{
    match key {
        Key::A => Some((0x41u32, false)),
        Key::B => Some((0x42u32, false)),
        Key::C => Some((0x43u32, false)),
        Key::D => Some((0x44u32, false)),
        Key::E => Some((0x45u32, false)),
        Key::F => Some((0x46u32, false)),
        Key::G => Some((0x47u32, false)),
        Key::H => Some((0x48u32, false)),
        Key::I => Some((0x49u32, false)),
        Key::J => Some((0x4Au32, false)),
        Key::K => Some((0x4Bu32, false)),
        Key::L => Some((0x4Cu32, false)),
        Key::M => Some((0x4Du32, false)),
        Key::N => Some((0x4Eu32, false)),
        Key::O => Some((0x4Fu32, false)),
        Key::P => Some((0x50u32, false)),
        Key::Q => Some((0x51u32, false)),
        Key::R => Some((0x52u32, false)),
        Key::S => Some((0x53u32, false)),
        Key::T => Some((0x54u32, false)),
        Key::U => Some((0x55u32, false)),
        Key::V => Some((0x56u32, false)),
        Key::W => Some((0x57u32, false)),
        Key::X => Some((0x58u32, false)),
        Key::Y => Some((0x59u32, false)),
        Key::Z => Some((0x5Au32, false)),
        Key::Num0 => Some((0x30u32, false)),
        Key::Num1 => Some((0x31u32, false)),
        Key::Num2 => Some((0x32u32, false)),
        Key::Num3 => Some((0x33u32, false)),
        Key::Num4 => Some((0x34u32, false)),
        Key::Num5 => Some((0x35u32, false)),
        Key::Num6 => Some((0x36u32, false)),
        Key::Num7 => Some((0x37u32, false)),
        Key::Num8 => Some((0x38u32, false)),
        Key::Num9 => Some((0x39u32, false)),
        Key::Escape => Some((0x1Bu32, false)),
        Key::LeftControl => Some((0xA2u32, false)),
        Key::LeftShift => Some((0xA0u32, false)),
        Key::LeftAlt => Some((0xA4u32, false)),
        Key::LeftSystem => Some((0x5Bu32, false)),
        Key::RightControl => Some((0xA3u32, false)),
        Key::RightShift => Some((0xA1u32, false)),
        Key::RightAlt => Some((0xA5u32, false)),
        Key::RightSystem => Some((0x5Cu32, false)),
        Key::Menu => Some((0x5Du32, false)),
        Key::LeftBracket => Some((0xDBu32, false)),
        Key::RightBracket => Some((0xDDu32, false)),
        Key::Semicolon => Some((0xBAu32, false)),
        Key::Comma => Some((0xBCu32, false)),
        Key::Period => Some((0xBEu32, false)),
        Key::Quote => Some((0xDEu32, false)),
        Key::Slash => Some((0xBFu32, false)),
        Key::BackSlash => Some((0xDCu32, false)),
        Key::Grave => Some((0xC0u32, false)),
        Key::Equal => Some((0xBBu32, false)),
        Key::Dash => Some((0xBDu32, false)),
        Key::Space => Some((0x20u32, false)),
        Key::Return => Some((0x0Du32, false)),
        Key::Back => Some((0x08u32, false)),
        Key::Tab => Some((0x09u32, false)),
        Key::PageUp => Some((0x21u32, true)),
        Key::PageDown => Some((0x22u32, true)),
        Key::End => Some((0x23u32, true)),
        Key::Home => Some((0x24u32, true)),
        Key::Insert => Some((0x2Du32, true)),
        Key::Delete => Some((0x2Eu32, true)),
        Key::Add => Some((0x6Bu32, false)),
        Key::Subtract => Some((0x6Du32, false)),
        Key::Multiply => Some((0x6Au32, false)),
        Key::Divide => Some((0x6Fu32, false)),
        Key::Left => Some((0x25u32, true)),
        Key::Right => Some((0x27u32, true)),
        Key::Up => Some((0x26u32, true)),
        Key::Down => Some((0x28u32, true)),
        Key::Numpad0 => Some((0x60u32, false)),
        Key::Numpad1 => Some((0x61u32, false)),
        Key::Numpad2 => Some((0x62u32, false)),
        Key::Numpad3 => Some((0x63u32, false)),
        Key::Numpad4 => Some((0x64u32, false)),
        Key::Numpad5 => Some((0x65u32, false)),
        Key::Numpad6 => Some((0x66u32, false)),
        Key::Numpad7 => Some((0x67u32, false)),
        Key::Numpad8 => Some((0x68u32, false)),
        Key::Numpad9 => Some((0x69u32, false)),
        Key::F1 => Some((0x70u32, false)),
        Key::F2 => Some((0x71u32, false)),
        Key::F3 => Some((0x72u32, false)),
        Key::F4 => Some((0x73u32, false)),
        Key::F5 => Some((0x74u32, false)),
        Key::F6 => Some((0x75u32, false)),
        Key::F7 => Some((0x76u32, false)),
        Key::F8 => Some((0x77u32, false)),
        Key::F9 => Some((0x78u32, false)),
        Key::F10 => Some((0x79u32, false)),
        Key::F11 => Some((0x7Au32, false)),
        Key::F12 => Some((0x7Bu32, false)),
        Key::F13 => Some((0x7Cu32, false)),
        Key::F14 => Some((0x7Du32, false)),
        Key::F15 => Some((0x7Eu32, false)),
        Key::Pause => Some((0x13u32, false)),
        Key::NumpadEnter => Some((0x0Du32, true)),
        Key::NumpadDecimal => Some((0x6Eu32, false)),
        Key::NumLock => Some((0x90u32, false)),
        Key::Scroll => Some((0x91u32, false)),
        Key::Print => Some((0x2Cu32, false)),
        Key::CapsLock => Some((0x14u32, false)),
        Key::BackSlash2 => Some((0xE2u32, false)),
        Key::Count => None,
    }
}

/// Round trip: every logical key with an established platform code decodes
/// back from that code to the very same key.
pub proof fn lemma_decode_encode_round_trip(key: Key)
    ensures
        encode_spec(key) matches Some(code) ==> decode_spec(code.0, code.1) == Some(key),
{
}

/// One raw input notification, reduced to the plain values the parser reads:
/// whether the frame came from a keyboard, the virtual key, the hardware
/// scan code, the two prefix flags, and whether the key was released.
#[derive(Clone, Copy, Debug, PartialEq, Eq, Structural)]
pub struct RawKeyFrame {
    pub keyboard: bool,
    pub virtual_key: u32,
    pub scan_code: u32,
    pub extended: bool,
    pub e1: bool,
    pub released: bool,
}

/// A decoded key stroke: the logical key, the corrected scan code, and
/// whether it was a release.
#[derive(Clone, Copy, Debug, PartialEq, Eq, Structural)]
pub struct KeyStroke {
    pub key: Key,
    pub scan_code: u32,
    pub released: bool,
}

/// The left or right Shift virtual key named by a hardware scan code. The
/// generic Shift code reaches a frame with the scan code of the physical
/// key, so scan code 0x2A names the left and 0x36 the right Shift key; any
/// other scan code resolves to nothing and the frame is dropped.
pub open spec fn shift_vk_from_scan_spec(scan_code: u32) -> u32 {
    if scan_code == 0x2Au32 {
        VK_LSHIFT
    } else if scan_code == 0x36u32 {
        VK_RSHIFT
    } else {
        VK_SHIFT
    }
}

/// The scan code of the NumLock key, which its frames omit; the platform's
/// layout assigns it 0x45, and the parser marks it with an extra bit.
pub const NUMLOCK_SCAN: u32 = 0x145;

/// The scan code of the Pause key. Pause arrives E1-prefixed with a scan
/// code the platform cannot reproduce from the virtual key, so the parser
/// fixes it to this constant.
pub const PAUSE_SCAN: u32 = 0x45;

/// The virtual key a frame decodes under, after the corrective rules: a
/// generic Shift resolves through the scan code; everything else stands.
pub open spec fn corrected_vk_spec(frame: RawKeyFrame) -> u32 {
    if frame.virtual_key == VK_SHIFT {
        shift_vk_from_scan_spec(frame.scan_code)
    } else {
        frame.virtual_key
    }
}

/// The scan code a stroke carries, after the corrective rules: NumLock gets
/// its omitted scan code with a marker bit; an E1-prefixed frame carries the
/// Pause scan code when it is Pause and no reproducible scan code otherwise.
pub open spec fn corrected_scan_spec(frame: RawKeyFrame) -> u32 {
    if frame.virtual_key == VK_NUMLOCK {
        NUMLOCK_SCAN
    } else if frame.e1 {
        if frame.virtual_key == VK_PAUSE {
            PAUSE_SCAN
        } else {
            0u32
        }
    } else {
        frame.scan_code
    }
}

/// What one raw frame parses to: nothing for a frame that is not a keyboard
/// frame, carries the no-mapping sentinel, or decodes to no logical key;
/// otherwise the decoded key with the corrected scan code and release flag.
pub open spec fn parse_spec(frame: RawKeyFrame) -> Option<KeyStroke> {
    if !frame.keyboard || frame.virtual_key == VK_NO_MAPPING {
        None
    } else {
        match decode_spec(corrected_vk_spec(frame), frame.extended) {
            Some(key) => Some(
                KeyStroke { key, scan_code: corrected_scan_spec(frame), released: frame.released },
            ),
            None => None,
        }
    }
}

/// Parses one raw input frame into a decoded key stroke, exactly as
/// `parse_spec` states. Undecodable frames yield nothing and never fail.
pub fn parse_key_frame(frame: &RawKeyFrame) -> (r: Option<KeyStroke>)
    ensures
        r == parse_spec(*frame),
{
    if !frame.keyboard || frame.virtual_key == VK_NO_MAPPING {
        return None;
    }
    let virtual_key: u32 = if frame.virtual_key == VK_SHIFT {
        if frame.scan_code == 0x2Au32 {
            VK_LSHIFT
        } else if frame.scan_code == 0x36u32 {
            VK_RSHIFT
        } else {
            VK_SHIFT
        }
    } else {
        frame.virtual_key
    };
    let scan_code: u32 = if frame.virtual_key == VK_NUMLOCK {
        NUMLOCK_SCAN
    } else if frame.e1 {
        if frame.virtual_key == VK_PAUSE {
            PAUSE_SCAN
        } else {
            0u32
        }
    } else {
        frame.scan_code
    };
    match decode(virtual_key, frame.extended) {
        Some(key) => Some(KeyStroke { key, scan_code, released: frame.released }),
        None => None,
    }
}

/// A frame carrying the generic Shift code never parses to an ambiguous
/// key: after resolution through the scan code it is the left or the right
/// Shift key, or nothing.
pub proof fn lemma_generic_shift_resolves(frame: RawKeyFrame)
    requires
        frame.virtual_key == VK_SHIFT,
    ensures
        parse_spec(frame) matches Some(stroke) ==> stroke.key == Key::LeftShift || stroke.key
            == Key::RightShift,
{
}

} // verus!

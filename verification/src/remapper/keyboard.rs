//! The key table: one symbolic key for every supported virtual-key code,
//! with the code and the labels that belong to it.

use vstd::prelude::*;

verus! {

/// A keyboard key, named independently of the platform's numbering.
///
/// `Escape` is also the "no key" value: every code outside the table reads
/// as `Escape`, so an unknown key and a cancelled capture look the same to
/// whoever asked for a key.
#[derive(Clone, Copy, Debug)]
pub enum KeyboardKey {
    Backspace,
    Tab,
    Enter,
    Escape,
    Space,
    PageUp,
    PageDown,
    End,
    Home,
    Left,
    Up,
    Right,
    Down,
    Insert,
    Delete,
    Numrow0,
    Numrow1,
    Numrow2,
    Numrow3,
    Numrow4,
    Numrow5,
    Numrow6,
    Numrow7,
    Numrow8,
    Numrow9,
    A,
    B,
    C,
    D,
    E,
    F,
    G,
    H,
    I,
    J,
    K,
    L,
    M,
    N,
    O,
    P,
    Q,
    R,
    S,
    T,
    U,
    V,
    W,
    X,
    Y,
    Z,
    LSuper,
    RSuper,
    Numpad0,
    Numpad1,
    Numpad2,
    Numpad3,
    Numpad4,
    Numpad5,
    Numpad6,
    Numpad7,
    Numpad8,
    Numpad9,
    F1,
    F2,
    F3,
    F4,
    F5,
    F6,
    F7,
    F8,
    F9,
    F10,
    F11,
    F12,
    F13,
    F14,
    F15,
    F16,
    F17,
    F18,
    F19,
    F20,
    F21,
    F22,
    F23,
    F24,
    NumLock,
    ScrollLock,
    CapsLock,
    LShift,
    RShift,
    LControl,
    RControl,
    LAlt,
    RAlt,
    BrowserBack,
    BrowserForward,
    BrowserRefresh,
    VolumeMute,
    VolumeDown,
    VolumeUp,
    MediaNextTrack,
    MediaPrevTrack,
    MediaStop,
    MediaPlayPause,
    Backquote,
    Slash,
    Backslash,
    Comma,
    Period,
    Minus,
    Quote,
    Semicolon,
    LBracket,
    RBracket,
    Equal,
}

/// True when some key of the table carries `code`.
pub open spec fn is_supported_code(code: u32) -> bool {
    exists|k: KeyboardKey| #[trigger] k.code() == code
}

/// The key that `code` stands for: the key of the table that carries it, and
/// `Escape` for every code that no key carries.
pub open spec fn key_of_code(code: u32) -> KeyboardKey {
    if is_supported_code(code) {
        choose|k: KeyboardKey| #[trigger] k.code() == code
    } else {
        KeyboardKey::Escape
    }
}

/// The key that a wide code stands for: a code too large for any virtual
/// key is no key.
pub open spec fn key_of_wide_code(value: u64) -> KeyboardKey {
    if value <= 0xFFFF_FFFF {
        key_of_code(value as u32)
    } else {
        KeyboardKey::Escape
    }
}

impl KeyboardKey {
    /// The virtual-key code of this key.
    pub open spec fn code(self) -> u32 {
        match self {
            KeyboardKey::Backspace => 0x08,
            KeyboardKey::Tab => 0x09,
            KeyboardKey::Enter => 0x0D,
            KeyboardKey::Escape => 0x1B,
            KeyboardKey::Space => 0x20,
            KeyboardKey::PageUp => 0x21,
            KeyboardKey::PageDown => 0x22,
            KeyboardKey::End => 0x23,
            KeyboardKey::Home => 0x24,
            KeyboardKey::Left => 0x25,
            KeyboardKey::Up => 0x26,
            KeyboardKey::Right => 0x27,
            KeyboardKey::Down => 0x28,
            KeyboardKey::Insert => 0x2D,
            KeyboardKey::Delete => 0x2E,
            KeyboardKey::Numrow0 => 0x30,
            KeyboardKey::Numrow1 => 0x31,
            KeyboardKey::Numrow2 => 0x32,
            KeyboardKey::Numrow3 => 0x33,
            KeyboardKey::Numrow4 => 0x34,
            KeyboardKey::Numrow5 => 0x35,
            KeyboardKey::Numrow6 => 0x36,
            KeyboardKey::Numrow7 => 0x37,
            KeyboardKey::Numrow8 => 0x38,
            KeyboardKey::Numrow9 => 0x39,
            KeyboardKey::A => 0x41,
            KeyboardKey::B => 0x42,
            KeyboardKey::C => 0x43,
            KeyboardKey::D => 0x44,
            KeyboardKey::E => 0x45,
            KeyboardKey::F => 0x46,
            KeyboardKey::G => 0x47,
            KeyboardKey::H => 0x48,
            KeyboardKey::I => 0x49,
            KeyboardKey::J => 0x4A,
            KeyboardKey::K => 0x4B,
            KeyboardKey::L => 0x4C,
            KeyboardKey::M => 0x4D,
            KeyboardKey::N => 0x4E,
            KeyboardKey::O => 0x4F,
            KeyboardKey::P => 0x50,
            KeyboardKey::Q => 0x51,
            KeyboardKey::R => 0x52,
            KeyboardKey::S => 0x53,
            KeyboardKey::T => 0x54,
            KeyboardKey::U => 0x55,
            KeyboardKey::V => 0x56,
            KeyboardKey::W => 0x57,
            KeyboardKey::X => 0x58,
            KeyboardKey::Y => 0x59,
            KeyboardKey::Z => 0x5A,
            KeyboardKey::LSuper => 0x5B,
            KeyboardKey::RSuper => 0x5C,
            KeyboardKey::Numpad0 => 0x60,
            KeyboardKey::Numpad1 => 0x61,
            KeyboardKey::Numpad2 => 0x62,
            KeyboardKey::Numpad3 => 0x63,
            KeyboardKey::Numpad4 => 0x64,
            KeyboardKey::Numpad5 => 0x65,
            KeyboardKey::Numpad6 => 0x66,
            KeyboardKey::Numpad7 => 0x67,
            KeyboardKey::Numpad8 => 0x68,
            KeyboardKey::Numpad9 => 0x69,
            KeyboardKey::F1 => 0x70,
            KeyboardKey::F2 => 0x71,
            KeyboardKey::F3 => 0x72,
            KeyboardKey::F4 => 0x73,
            KeyboardKey::F5 => 0x74,
            KeyboardKey::F6 => 0x75,
            KeyboardKey::F7 => 0x76,
            KeyboardKey::F8 => 0x77,
            KeyboardKey::F9 => 0x78,
            KeyboardKey::F10 => 0x79,
            KeyboardKey::F11 => 0x7A,
            KeyboardKey::F12 => 0x7B,
            KeyboardKey::F13 => 0x7C,
            KeyboardKey::F14 => 0x7D,
            KeyboardKey::F15 => 0x7E,
            KeyboardKey::F16 => 0x7F,
            KeyboardKey::F17 => 0x80,
            KeyboardKey::F18 => 0x81,
            KeyboardKey::F19 => 0x82,
            KeyboardKey::F20 => 0x83,
            KeyboardKey::F21 => 0x84,
            KeyboardKey::F22 => 0x85,
            KeyboardKey::F23 => 0x86,
            KeyboardKey::F24 => 0x87,
            KeyboardKey::NumLock => 0x90,
            KeyboardKey::ScrollLock => 0x91,
            KeyboardKey::CapsLock => 0x14,
            KeyboardKey::LShift => 0xA0,
            KeyboardKey::RShift => 0xA1,
            KeyboardKey::LControl => 0xA2,
            KeyboardKey::RControl => 0xA3,
            KeyboardKey::LAlt => 0xA4,
            KeyboardKey::RAlt => 0xA5,
            KeyboardKey::BrowserBack => 0xA6,
            KeyboardKey::BrowserForward => 0xA7,
            KeyboardKey::BrowserRefresh => 0xA8,
            KeyboardKey::VolumeMute => 0xAD,
            KeyboardKey::VolumeDown => 0xAE,
            KeyboardKey::VolumeUp => 0xAF,
            KeyboardKey::MediaNextTrack => 0xB0,
            KeyboardKey::MediaPrevTrack => 0xB1,
            KeyboardKey::MediaStop => 0xB2,
            KeyboardKey::MediaPlayPause => 0xB3,
            KeyboardKey::Backquote => 0xC0,
            KeyboardKey::Slash => 0xBF,
            KeyboardKey::Backslash => 0xDC,
            KeyboardKey::Comma => 0xBC,
            KeyboardKey::Period => 0xBE,
            KeyboardKey::Minus => 0xBD,
            KeyboardKey::Quote => 0xDE,
            KeyboardKey::Semicolon => 0xBA,
            KeyboardKey::LBracket => 0xDB,
            KeyboardKey::RBracket => 0xDD,
            KeyboardKey::Equal => 0xBB,
        }
    }

    /// The text shown for this key in a binding.
    pub open spec fn label(self) -> Seq<char> {
        match self {
            KeyboardKey::Backspace => "Backspace"@,
            KeyboardKey::Tab => "Tab"@,
            KeyboardKey::Enter => "Enter"@,
            KeyboardKey::Escape => "NONE"@,
            KeyboardKey::Space => "Space"@,
            KeyboardKey::PageUp => "PageUp"@,
            KeyboardKey::PageDown => "PageDown"@,
            KeyboardKey::End => "End"@,
            KeyboardKey::Home => "Home"@,
            KeyboardKey::Left => "Left"@,
            KeyboardKey::Up => "Up"@,
            KeyboardKey::Right => "Right"@,
            KeyboardKey::Down => "Down"@,
            KeyboardKey::Insert => "Insert"@,
            KeyboardKey::Delete => "Delete"@,
            KeyboardKey::Numrow0 => "0"@,
            KeyboardKey::Numrow1 => "1"@,
            KeyboardKey::Numrow2 => "2"@,
            KeyboardKey::Numrow3 => "3"@,
            KeyboardKey::Numrow4 => "4"@,
            KeyboardKey::Numrow5 => "5"@,
            KeyboardKey::Numrow6 => "6"@,
            KeyboardKey::Numrow7 => "7"@,
            KeyboardKey::Numrow8 => "8"@,
            KeyboardKey::Numrow9 => "9"@,
            KeyboardKey::A => "a"@,
            KeyboardKey::B => "b"@,
            KeyboardKey::C => "c"@,
            KeyboardKey::D => "d"@,
            KeyboardKey::E => "e"@,
            KeyboardKey::F => "f"@,
            KeyboardKey::G => "g"@,
            KeyboardKey::H => "h"@,
            KeyboardKey::I => "i"@,
            KeyboardKey::J => "j"@,
            KeyboardKey::K => "k"@,
            KeyboardKey::L => "l"@,
            KeyboardKey::M => "m"@,
            KeyboardKey::N => "n"@,
            KeyboardKey::O => "o"@,
            KeyboardKey::P => "p"@,
            KeyboardKey::Q => "q"@,
            KeyboardKey::R => "r"@,
            KeyboardKey::S => "s"@,
            KeyboardKey::T => "t"@,
            KeyboardKey::U => "u"@,
            KeyboardKey::V => "v"@,
            KeyboardKey::W => "w"@,
            KeyboardKey::X => "x"@,
            KeyboardKey::Y => "y"@,
            KeyboardKey::Z => "z"@,
            KeyboardKey::LSuper => "LeftWindows"@,
            KeyboardKey::RSuper => "RightWindows"@,
            KeyboardKey::Numpad0 => "NumPad0"@,
            KeyboardKey::Numpad1 => "NumPad1"@,
            KeyboardKey::Numpad2 => "NumPad2"@,
            KeyboardKey::Numpad3 => "NumPad3"@,
            KeyboardKey::Numpad4 => "NumPad4"@,
            KeyboardKey::Numpad5 => "NumPad5"@,
            KeyboardKey::Numpad6 => "NumPad6"@,
            KeyboardKey::Numpad7 => "NumPad7"@,
            KeyboardKey::Numpad8 => "NumPad8"@,
            KeyboardKey::Numpad9 => "NumPad9"@,
            KeyboardKey::F1 => "F1"@,
            KeyboardKey::F2 => "F2"@,
            KeyboardKey::F3 => "F3"@,
            KeyboardKey::F4 => "F4"@,
            KeyboardKey::F5 => "F5"@,
            KeyboardKey::F6 => "F6"@,
            KeyboardKey::F7 => "F7"@,
            KeyboardKey::F8 => "F8"@,
            KeyboardKey::F9 => "F9"@,
            KeyboardKey::F10 => "F10"@,
            KeyboardKey::F11 => "F11"@,
            KeyboardKey::F12 => "F12"@,
            KeyboardKey::F13 => "F13"@,
            KeyboardKey::F14 => "F14"@,
            KeyboardKey::F15 => "F15"@,
            KeyboardKey::F16 => "F16"@,
            KeyboardKey::F17 => "F17"@,
            KeyboardKey::F18 => "F18"@,
            KeyboardKey::F19 => "F19"@,
            KeyboardKey::F20 => "F20"@,
            KeyboardKey::F21 => "F21"@,
            KeyboardKey::F22 => "F22"@,
            KeyboardKey::F23 => "F23"@,
            KeyboardKey::F24 => "F24"@,
            KeyboardKey::NumLock => "NumLock"@,
            KeyboardKey::ScrollLock => "ScrollLock"@,
            KeyboardKey::CapsLock => "CapsLock"@,
            KeyboardKey::LShift => "LeftShift"@,
            KeyboardKey::RShift => "RightShift"@,
            KeyboardKey::LControl => "LeftControl"@,
            KeyboardKey::RControl => "RightControl"@,
            KeyboardKey::LAlt => "LeftAlt"@,
            KeyboardKey::RAlt => "RightAlt"@,
            KeyboardKey::BrowserBack => "Back"@,
            KeyboardKey::BrowserForward => "Forward"@,
            KeyboardKey::BrowserRefresh => "Refresh"@,
            KeyboardKey::VolumeMute => "VolumeMute"@,
            KeyboardKey::VolumeDown => "VolumeDown"@,
            KeyboardKey::VolumeUp => "VolumeUp"@,
            KeyboardKey::MediaNextTrack => "MediaNext"@,
            KeyboardKey::MediaPrevTrack => "MediaPrevious"@,
            KeyboardKey::MediaStop => "MediaStop"@,
            KeyboardKey::MediaPlayPause => "MediaPlay"@,
            KeyboardKey::Backquote => "`"@,
            KeyboardKey::Slash => "/"@,
            KeyboardKey::Backslash => "\\"@,
            KeyboardKey::Comma => ","@,
            KeyboardKey::Period => "."@,
            KeyboardKey::Minus => "-"@,
            KeyboardKey::Quote => "'"@,
            KeyboardKey::Semicolon => ";"@,
            KeyboardKey::LBracket => "["@,
            KeyboardKey::RBracket => "]"@,
            KeyboardKey::Equal => "="@,
        }
    }

    /// The name of this key in diagnostics.
    pub open spec fn debug_label(self) -> Seq<char> {
        match self {
            KeyboardKey::Backspace => "Backspace"@,
            KeyboardKey::Tab => "Tab"@,
            KeyboardKey::Enter => "Enter"@,
            KeyboardKey::Escape => "NONE"@,
            KeyboardKey::Space => "Space"@,
            KeyboardKey::PageUp => "PageUp"@,
            KeyboardKey::PageDown => "PageDown"@,
            KeyboardKey::End => "End"@,
            KeyboardKey::Home => "Home"@,
            KeyboardKey::Left => "Left"@,
            KeyboardKey::Up => "Up"@,
            KeyboardKey::Right => "Right"@,
            KeyboardKey::Down => "Down"@,
            KeyboardKey::Insert => "Insert"@,
            KeyboardKey::Delete => "Delete"@,
            KeyboardKey::Numrow0 => "0"@,
            KeyboardKey::Numrow1 => "1"@,
            KeyboardKey::Numrow2 => "2"@,
            KeyboardKey::Numrow3 => "3"@,
            KeyboardKey::Numrow4 => "4"@,
            KeyboardKey::Numrow5 => "5"@,
            KeyboardKey::Numrow6 => "6"@,
            KeyboardKey::Numrow7 => "7"@,
            KeyboardKey::Numrow8 => "8"@,
            KeyboardKey::Numrow9 => "9"@,
            KeyboardKey::A => "a"@,
            KeyboardKey::B => "b"@,
            KeyboardKey::C => "c"@,
            KeyboardKey::D => "d"@,
            KeyboardKey::E => "e"@,
            KeyboardKey::F => "f"@,
            KeyboardKey::G => "g"@,
            KeyboardKey::H => "h"@,
            KeyboardKey::I => "i"@,
            KeyboardKey::J => "j"@,
            KeyboardKey::K => "k"@,
            KeyboardKey::L => "l"@,
            KeyboardKey::M => "m"@,
            KeyboardKey::N => "n"@,
            KeyboardKey::O => "o"@,
            KeyboardKey::P => "p"@,
            KeyboardKey::Q => "q"@,
            KeyboardKey::R => "r"@,
            KeyboardKey::S => "s"@,
            KeyboardKey::T => "t"@,
            KeyboardKey::U => "u"@,
            KeyboardKey::V => "v"@,
            KeyboardKey::W => "w"@,
            KeyboardKey::X => "x"@,
            KeyboardKey::Y => "y"@,
            KeyboardKey::Z => "z"@,
            KeyboardKey::LSuper => "LeftWindows"@,
            KeyboardKey::RSuper => "RightWindows"@,
            KeyboardKey::Numpad0 => "NumPad0"@,
            KeyboardKey::Numpad1 => "NumPad1"@,
            KeyboardKey::Numpad2 => "NumPad2"@,
            KeyboardKey::Numpad3 => "NumPad3"@,
            KeyboardKey::Numpad4 => "NumPad4"@,
            KeyboardKey::Numpad5 => "NumPad5"@,
            KeyboardKey::Numpad6 => "NumPad6"@,
            KeyboardKey::Numpad7 => "NumPad7"@,
            KeyboardKey::Numpad8 => "NumPad8"@,
            KeyboardKey::Numpad9 => "NumPad9"@,
            KeyboardKey::F1 => "F1"@,
            KeyboardKey::F2 => "F2"@,
            KeyboardKey::F3 => "F3"@,
            KeyboardKey::F4 => "F4"@,
            KeyboardKey::F5 => "F5"@,
            KeyboardKey::F6 => "F6"@,
            KeyboardKey::F7 => "F7"@,
            KeyboardKey::F8 => "F8"@,
            KeyboardKey::F9 => "F9"@,
            KeyboardKey::F10 => "F10"@,
            KeyboardKey::F11 => "F11"@,
            KeyboardKey::F12 => "F12"@,
            KeyboardKey::F13 => "F13"@,
            KeyboardKey::F14 => "F14"@,
            KeyboardKey::F15 => "F15"@,
            KeyboardKey::F16 => "F16"@,
            KeyboardKey::F17 => "F17"@,
            KeyboardKey::F18 => "F18"@,
            KeyboardKey::F19 => "F19"@,
            KeyboardKey::F20 => "F20"@,
            KeyboardKey::F21 => "F21"@,
            KeyboardKey::F22 => "F22"@,
            KeyboardKey::F23 => "F23"@,
            KeyboardKey::F24 => "F24"@,
            KeyboardKey::NumLock => "NumLock"@,
            KeyboardKey::ScrollLock => "ScrollLock"@,
            KeyboardKey::CapsLock => "CapsLock"@,
            KeyboardKey::LShift => "LeftShift"@,
            KeyboardKey::RShift => "RightShift"@,
            KeyboardKey::LControl => "LeftControl"@,
            KeyboardKey::RControl => "RightControl"@,
            KeyboardKey::LAlt => "LeftAlt"@,
            KeyboardKey::RAlt => "RightAlt"@,
            KeyboardKey::BrowserBack => "Back"@,
            KeyboardKey::BrowserForward => "Forward"@,
            KeyboardKey::BrowserRefresh => "Refresh"@,
            KeyboardKey::VolumeMute => "VolumeMute"@,
            KeyboardKey::VolumeDown => "VolumeDown"@,
            KeyboardKey::VolumeUp => "VolumeUp"@,
            KeyboardKey::MediaNextTrack => "MediaNext"@,
            KeyboardKey::MediaPrevTrack => "MediaPrevious"@,
            KeyboardKey::MediaStop => "MediaStop"@,
            KeyboardKey::MediaPlayPause => "MediaPlay"@,
            KeyboardKey::Backquote => "Backquote"@,
            KeyboardKey::Slash => "Slash"@,
            KeyboardKey::Backslash => "Backslash"@,
            KeyboardKey::Comma => "Comma"@,
            KeyboardKey::Period => "Period"@,
            KeyboardKey::Minus => "Minus"@,
            KeyboardKey::Quote => "Quote"@,
            KeyboardKey::Semicolon => "Semicolon"@,
            KeyboardKey::LBracket => "LeftBracket"@,
            KeyboardKey::RBracket => "RightBracket"@,
            KeyboardKey::Equal => "Equals"@,
        }
    }

    /// Returns the virtual-key code of this key.
    pub fn to_code(&self) -> (code: u32)
        ensures
            code == self.code(),
    {
        match self {
            KeyboardKey::Backspace => 0x08,
            KeyboardKey::Tab => 0x09,
            KeyboardKey::Enter => 0x0D,
            KeyboardKey::Escape => 0x1B,
            KeyboardKey::Space => 0x20,
            KeyboardKey::PageUp => 0x21,
            KeyboardKey::PageDown => 0x22,
            KeyboardKey::End => 0x23,
            KeyboardKey::Home => 0x24,
            KeyboardKey::Left => 0x25,
            KeyboardKey::Up => 0x26,
            KeyboardKey::Right => 0x27,
            KeyboardKey::Down => 0x28,
            KeyboardKey::Insert => 0x2D,
            KeyboardKey::Delete => 0x2E,
            KeyboardKey::Numrow0 => 0x30,
            KeyboardKey::Numrow1 => 0x31,
            KeyboardKey::Numrow2 => 0x32,
            KeyboardKey::Numrow3 => 0x33,
            KeyboardKey::Numrow4 => 0x34,
            KeyboardKey::Numrow5 => 0x35,
            KeyboardKey::Numrow6 => 0x36,
            KeyboardKey::Numrow7 => 0x37,
            KeyboardKey::Numrow8 => 0x38,
            KeyboardKey::Numrow9 => 0x39,
            KeyboardKey::A => 0x41,
            KeyboardKey::B => 0x42,
            KeyboardKey::C => 0x43,
            KeyboardKey::D => 0x44,
            KeyboardKey::E => 0x45,
            KeyboardKey::F => 0x46,
            KeyboardKey::G => 0x47,
            KeyboardKey::H => 0x48,
            KeyboardKey::I => 0x49,
            KeyboardKey::J => 0x4A,
            KeyboardKey::K => 0x4B,
            KeyboardKey::L => 0x4C,
            KeyboardKey::M => 0x4D,
            KeyboardKey::N => 0x4E,
            KeyboardKey::O => 0x4F,
            KeyboardKey::P => 0x50,
            KeyboardKey::Q => 0x51,
            KeyboardKey::R => 0x52,
            KeyboardKey::S => 0x53,
            KeyboardKey::T => 0x54,
            KeyboardKey::U => 0x55,
            KeyboardKey::V => 0x56,
            KeyboardKey::W => 0x57,
            KeyboardKey::X => 0x58,
            KeyboardKey::Y => 0x59,
            KeyboardKey::Z => 0x5A,
            KeyboardKey::LSuper => 0x5B,
            KeyboardKey::RSuper => 0x5C,
            KeyboardKey::Numpad0 => 0x60,
            KeyboardKey::Numpad1 => 0x61,
            KeyboardKey::Numpad2 => 0x62,
            KeyboardKey::Numpad3 => 0x63,
            KeyboardKey::Numpad4 => 0x64,
            KeyboardKey::Numpad5 => 0x65,
            KeyboardKey::Numpad6 => 0x66,
            KeyboardKey::Numpad7 => 0x67,
            KeyboardKey::Numpad8 => 0x68,
            KeyboardKey::Numpad9 => 0x69,
            KeyboardKey::F1 => 0x70,
            KeyboardKey::F2 => 0x71,
            KeyboardKey::F3 => 0x72,
            KeyboardKey::F4 => 0x73,
            KeyboardKey::F5 => 0x74,
            KeyboardKey::F6 => 0x75,
            KeyboardKey::F7 => 0x76,
            KeyboardKey::F8 => 0x77,
            KeyboardKey::F9 => 0x78,
            KeyboardKey::F10 => 0x79,
            KeyboardKey::F11 => 0x7A,
            KeyboardKey::F12 => 0x7B,
            KeyboardKey::F13 => 0x7C,
            KeyboardKey::F14 => 0x7D,
            KeyboardKey::F15 => 0x7E,
            KeyboardKey::F16 => 0x7F,
            KeyboardKey::F17 => 0x80,
            KeyboardKey::F18 => 0x81,
            KeyboardKey::F19 => 0x82,
            KeyboardKey::F20 => 0x83,
            KeyboardKey::F21 => 0x84,
            KeyboardKey::F22 => 0x85,
            KeyboardKey::F23 => 0x86,
            KeyboardKey::F24 => 0x87,
            KeyboardKey::NumLock => 0x90,
            KeyboardKey::ScrollLock => 0x91,
            KeyboardKey::CapsLock => 0x14,
            KeyboardKey::LShift => 0xA0,
            KeyboardKey::RShift => 0xA1,
            KeyboardKey::LControl => 0xA2,
            KeyboardKey::RControl => 0xA3,
            KeyboardKey::LAlt => 0xA4,
            KeyboardKey::RAlt => 0xA5,
            KeyboardKey::BrowserBack => 0xA6,
            KeyboardKey::BrowserForward => 0xA7,
            KeyboardKey::BrowserRefresh => 0xA8,
            KeyboardKey::VolumeMute => 0xAD,
            KeyboardKey::VolumeDown => 0xAE,
            KeyboardKey::VolumeUp => 0xAF,
            KeyboardKey::MediaNextTrack => 0xB0,
            KeyboardKey::MediaPrevTrack => 0xB1,
            KeyboardKey::MediaStop => 0xB2,
            KeyboardKey::MediaPlayPause => 0xB3,
            KeyboardKey::Backquote => 0xC0,
            KeyboardKey::Slash => 0xBF,
            KeyboardKey::Backslash => 0xDC,
            KeyboardKey::Comma => 0xBC,
            KeyboardKey::Period => 0xBE,
            KeyboardKey::Minus => 0xBD,
            KeyboardKey::Quote => 0xDE,
            KeyboardKey::Semicolon => 0xBA,
            KeyboardKey::LBracket => 0xDB,
            KeyboardKey::RBracket => 0xDD,
            KeyboardKey::Equal => 0xBB,
        }
    }

    /// Returns the key that carries `code`, or `Escape` when no key does.
    pub fn from_code(code: u32) -> (key: KeyboardKey)
        ensures
            key == key_of_code(code),
            forall|k: KeyboardKey| #[trigger] k.code() == code ==> key == k,
            !is_supported_code(code) ==> key == KeyboardKey::Escape,
    {
        let key = match code {
            0x08 => KeyboardKey::Backspace,
            0x09 => KeyboardKey::Tab,
            0x0D => KeyboardKey::Enter,
            0x1B => KeyboardKey::Escape,
            0x20 => KeyboardKey::Space,
            0x21 => KeyboardKey::PageUp,
            0x22 => KeyboardKey::PageDown,
            0x23 => KeyboardKey::End,
            0x24 => KeyboardKey::Home,
            0x25 => KeyboardKey::Left,
            0x26 => KeyboardKey::Up,
            0x27 => KeyboardKey::Right,
            0x28 => KeyboardKey::Down,
            0x2D => KeyboardKey::Insert,
            0x2E => KeyboardKey::Delete,
            0x30 => KeyboardKey::Numrow0,
            0x31 => KeyboardKey::Numrow1,
            0x32 => KeyboardKey::Numrow2,
            0x33 => KeyboardKey::Numrow3,
            0x34 => KeyboardKey::Numrow4,
            0x35 => KeyboardKey::Numrow5,
            0x36 => KeyboardKey::Numrow6,
            0x37 => KeyboardKey::Numrow7,
            0x38 => KeyboardKey::Numrow8,
            0x39 => KeyboardKey::Numrow9,
            0x41 => KeyboardKey::A,
            0x42 => KeyboardKey::B,
            0x43 => KeyboardKey::C,
            0x44 => KeyboardKey::D,
            0x45 => KeyboardKey::E,
            0x46 => KeyboardKey::F,
            0x47 => KeyboardKey::G,
            0x48 => KeyboardKey::H,
            0x49 => KeyboardKey::I,
            0x4A => KeyboardKey::J,
            0x4B => KeyboardKey::K,
            0x4C => KeyboardKey::L,
            0x4D => KeyboardKey::M,
            0x4E => KeyboardKey::N,
            0x4F => KeyboardKey::O,
            0x50 => KeyboardKey::P,
            0x51 => KeyboardKey::Q,
            0x52 => KeyboardKey::R,
            0x53 => KeyboardKey::S,
            0x54 => KeyboardKey::T,
            0x55 => KeyboardKey::U,
            0x56 => KeyboardKey::V,
            0x57 => KeyboardKey::W,
            0x58 => KeyboardKey::X,
            0x59 => KeyboardKey::Y,
            0x5A => KeyboardKey::Z,
            0x5B => KeyboardKey::LSuper,
            0x5C => KeyboardKey::RSuper,
            0x60 => KeyboardKey::Numpad0,
            0x61 => KeyboardKey::Numpad1,
            0x62 => KeyboardKey::Numpad2,
            0x63 => KeyboardKey::Numpad3,
            0x64 => KeyboardKey::Numpad4,
            0x65 => KeyboardKey::Numpad5,
            0x66 => KeyboardKey::Numpad6,
            0x67 => KeyboardKey::Numpad7,
            0x68 => KeyboardKey::Numpad8,
            0x69 => KeyboardKey::Numpad9,
            0x70 => KeyboardKey::F1,
            0x71 => KeyboardKey::F2,
            0x72 => KeyboardKey::F3,
            0x73 => KeyboardKey::F4,
            0x74 => KeyboardKey::F5,
            0x75 => KeyboardKey::F6,
            0x76 => KeyboardKey::F7,
            0x77 => KeyboardKey::F8,
            0x78 => KeyboardKey::F9,
            0x79 => KeyboardKey::F10,
            0x7A => KeyboardKey::F11,
            0x7B => KeyboardKey::F12,
            0x7C => KeyboardKey::F13,
            0x7D => KeyboardKey::F14,
            0x7E => KeyboardKey::F15,
            0x7F => KeyboardKey::F16,
            0x80 => KeyboardKey::F17,
            0x81 => KeyboardKey::F18,
            0x82 => KeyboardKey::F19,
            0x83 => KeyboardKey::F20,
            0x84 => KeyboardKey::F21,
            0x85 => KeyboardKey::F22,
            0x86 => KeyboardKey::F23,
            0x87 => KeyboardKey::F24,
            0x90 => KeyboardKey::NumLock,
            0x91 => KeyboardKey::ScrollLock,
            0x14 => KeyboardKey::CapsLock,
            0xA0 => KeyboardKey::LShift,
            0xA1 => KeyboardKey::RShift,
            0xA2 => KeyboardKey::LControl,
            0xA3 => KeyboardKey::RControl,
            0xA4 => KeyboardKey::LAlt,
            0xA5 => KeyboardKey::RAlt,
            0xA6 => KeyboardKey::BrowserBack,
            0xA7 => KeyboardKey::BrowserForward,
            0xA8 => KeyboardKey::BrowserRefresh,
            0xAD => KeyboardKey::VolumeMute,
            0xAE => KeyboardKey::VolumeDown,
            0xAF => KeyboardKey::VolumeUp,
            0xB0 => KeyboardKey::MediaNextTrack,
            0xB1 => KeyboardKey::MediaPrevTrack,
            0xB2 => KeyboardKey::MediaStop,
            0xB3 => KeyboardKey::MediaPlayPause,
            0xC0 => KeyboardKey::Backquote,
            0xBF => KeyboardKey::Slash,
            0xDC => KeyboardKey::Backslash,
            0xBC => KeyboardKey::Comma,
            0xBE => KeyboardKey::Period,
            0xBD => KeyboardKey::Minus,
            0xDE => KeyboardKey::Quote,
            0xBA => KeyboardKey::Semicolon,
            0xDB => KeyboardKey::LBracket,
            0xDD => KeyboardKey::RBracket,
            0xBB => KeyboardKey::Equal,
            _ => KeyboardKey::Escape,
        };
        proof {
            lemma_code_injective_at(key);
            if key.code() != code {
                lemma_codes_listed();
            }
        }
        key
    }

    /// Returns the text shown for this key in a binding.
    pub fn to_string(&self) -> (text: String)
        ensures
            text@ == self.label(),
    {
        let text = match self {
            KeyboardKey::Backspace => "Backspace",
            KeyboardKey::Tab => "Tab",
            KeyboardKey::Enter => "Enter",
            KeyboardKey::Escape => "NONE",
            KeyboardKey::Space => "Space",
            KeyboardKey::PageUp => "PageUp",
            KeyboardKey::PageDown => "PageDown",
            KeyboardKey::End => "End",
            KeyboardKey::Home => "Home",
            KeyboardKey::Left => "Left",
            KeyboardKey::Up => "Up",
            KeyboardKey::Right => "Right",
            KeyboardKey::Down => "Down",
            KeyboardKey::Insert => "Insert",
            KeyboardKey::Delete => "Delete",
            KeyboardKey::Numrow0 => "0",
            KeyboardKey::Numrow1 => "1",
            KeyboardKey::Numrow2 => "2",
            KeyboardKey::Numrow3 => "3",
            KeyboardKey::Numrow4 => "4",
            KeyboardKey::Numrow5 => "5",
            KeyboardKey::Numrow6 => "6",
            KeyboardKey::Numrow7 => "7",
            KeyboardKey::Numrow8 => "8",
            KeyboardKey::Numrow9 => "9",
            KeyboardKey::A => "a",
            KeyboardKey::B => "b",
            KeyboardKey::C => "c",
            KeyboardKey::D => "d",
            KeyboardKey::E => "e",
            KeyboardKey::F => "f",
            KeyboardKey::G => "g",
            KeyboardKey::H => "h",
            KeyboardKey::I => "i",
            KeyboardKey::J => "j",
            KeyboardKey::K => "k",
            KeyboardKey::L => "l",
            KeyboardKey::M => "m",
            KeyboardKey::N => "n",
            KeyboardKey::O => "o",
            KeyboardKey::P => "p",
            KeyboardKey::Q => "q",
            KeyboardKey::R => "r",
            KeyboardKey::S => "s",
            KeyboardKey::T => "t",
            KeyboardKey::U => "u",
            KeyboardKey::V => "v",
            KeyboardKey::W => "w",
            KeyboardKey::X => "x",
            KeyboardKey::Y => "y",
            KeyboardKey::Z => "z",
            KeyboardKey::LSuper => "LeftWindows",
            KeyboardKey::RSuper => "RightWindows",
            KeyboardKey::Numpad0 => "NumPad0",
            KeyboardKey::Numpad1 => "NumPad1",
            KeyboardKey::Numpad2 => "NumPad2",
            KeyboardKey::Numpad3 => "NumPad3",
            KeyboardKey::Numpad4 => "NumPad4",
            KeyboardKey::Numpad5 => "NumPad5",
            KeyboardKey::Numpad6 => "NumPad6",
            KeyboardKey::Numpad7 => "NumPad7",
            KeyboardKey::Numpad8 => "NumPad8",
            KeyboardKey::Numpad9 => "NumPad9",
            KeyboardKey::F1 => "F1",
            KeyboardKey::F2 => "F2",
            KeyboardKey::F3 => "F3",
            KeyboardKey::F4 => "F4",
            KeyboardKey::F5 => "F5",
            KeyboardKey::F6 => "F6",
            KeyboardKey::F7 => "F7",
            KeyboardKey::F8 => "F8",
            KeyboardKey::F9 => "F9",
            KeyboardKey::F10 => "F10",
            KeyboardKey::F11 => "F11",
            KeyboardKey::F12 => "F12",
            KeyboardKey::F13 => "F13",
            KeyboardKey::F14 => "F14",
            KeyboardKey::F15 => "F15",
            KeyboardKey::F16 => "F16",
            KeyboardKey::F17 => "F17",
            KeyboardKey::F18 => "F18",
            KeyboardKey::F19 => "F19",
            KeyboardKey::F20 => "F20",
            KeyboardKey::F21 => "F21",
            KeyboardKey::F22 => "F22",
            KeyboardKey::F23 => "F23",
            KeyboardKey::F24 => "F24",
            KeyboardKey::NumLock => "NumLock",
            KeyboardKey::ScrollLock => "ScrollLock",
            KeyboardKey::CapsLock => "CapsLock",
            KeyboardKey::LShift => "LeftShift",
            KeyboardKey::RShift => "RightShift",
            KeyboardKey::LControl => "LeftControl",
            KeyboardKey::RControl => "RightControl",
            KeyboardKey::LAlt => "LeftAlt",
            KeyboardKey::RAlt => "RightAlt",
            KeyboardKey::BrowserBack => "Back",
            KeyboardKey::BrowserForward => "Forward",
            KeyboardKey::BrowserRefresh => "Refresh",
            KeyboardKey::VolumeMute => "VolumeMute",
            KeyboardKey::VolumeDown => "VolumeDown",
            KeyboardKey::VolumeUp => "VolumeUp",
            KeyboardKey::MediaNextTrack => "MediaNext",
            KeyboardKey::MediaPrevTrack => "MediaPrevious",
            KeyboardKey::MediaStop => "MediaStop",
            KeyboardKey::MediaPlayPause => "MediaPlay",
            KeyboardKey::Backquote => "`",
            KeyboardKey::Slash => "/",
            KeyboardKey::Backslash => "\\",
            KeyboardKey::Comma => ",",
            KeyboardKey::Period => ".",
            KeyboardKey::Minus => "-",
            KeyboardKey::Quote => "'",
            KeyboardKey::Semicolon => ";",
            KeyboardKey::LBracket => "[",
            KeyboardKey::RBracket => "]",
            KeyboardKey::Equal => "=",
        };
        String::from_str(text)
    }

    /// Returns the name of this key in diagnostics.
    pub fn debug_name(&self) -> (text: String)
        ensures
            text@ == self.debug_label(),
    {
        let text = match self {
            KeyboardKey::Backspace => "Backspace",
            KeyboardKey::Tab => "Tab",
            KeyboardKey::Enter => "Enter",
            KeyboardKey::Escape => "NONE",
            KeyboardKey::Space => "Space",
            KeyboardKey::PageUp => "PageUp",
            KeyboardKey::PageDown => "PageDown",
            KeyboardKey::End => "End",
            KeyboardKey::Home => "Home",
            KeyboardKey::Left => "Left",
            KeyboardKey::Up => "Up",
            KeyboardKey::Right => "Right",
            KeyboardKey::Down => "Down",
            KeyboardKey::Insert => "Insert",
            KeyboardKey::Delete => "Delete",
            KeyboardKey::Numrow0 => "0",
            KeyboardKey::Numrow1 => "1",
            KeyboardKey::Numrow2 => "2",
            KeyboardKey::Numrow3 => "3",
            KeyboardKey::Numrow4 => "4",
            KeyboardKey::Numrow5 => "5",
            KeyboardKey::Numrow6 => "6",
            KeyboardKey::Numrow7 => "7",
            KeyboardKey::Numrow8 => "8",
            KeyboardKey::Numrow9 => "9",
            KeyboardKey::A => "a",
            KeyboardKey::B => "b",
            KeyboardKey::C => "c",
            KeyboardKey::D => "d",
            KeyboardKey::E => "e",
            KeyboardKey::F => "f",
            KeyboardKey::G => "g",
            KeyboardKey::H => "h",
            KeyboardKey::I => "i",
            KeyboardKey::J => "j",
            KeyboardKey::K => "k",
            KeyboardKey::L => "l",
            KeyboardKey::M => "m",
            KeyboardKey::N => "n",
            KeyboardKey::O => "o",
            KeyboardKey::P => "p",
            KeyboardKey::Q => "q",
            KeyboardKey::R => "r",
            KeyboardKey::S => "s",
            KeyboardKey::T => "t",
            KeyboardKey::U => "u",
            KeyboardKey::V => "v",
            KeyboardKey::W => "w",
            KeyboardKey::X => "x",
            KeyboardKey::Y => "y",
            KeyboardKey::Z => "z",
            KeyboardKey::LSuper => "LeftWindows",
            KeyboardKey::RSuper => "RightWindows",
            KeyboardKey::Numpad0 => "NumPad0",
            KeyboardKey::Numpad1 => "NumPad1",
            KeyboardKey::Numpad2 => "NumPad2",
            KeyboardKey::Numpad3 => "NumPad3",
            KeyboardKey::Numpad4 => "NumPad4",
            KeyboardKey::Numpad5 => "NumPad5",
            KeyboardKey::Numpad6 => "NumPad6",
            KeyboardKey::Numpad7 => "NumPad7",
            KeyboardKey::Numpad8 => "NumPad8",
            KeyboardKey::Numpad9 => "NumPad9",
            KeyboardKey::F1 => "F1",
            KeyboardKey::F2 => "F2",
            KeyboardKey::F3 => "F3",
            KeyboardKey::F4 => "F4",
            KeyboardKey::F5 => "F5",
            KeyboardKey::F6 => "F6",
            KeyboardKey::F7 => "F7",
            KeyboardKey::F8 => "F8",
            KeyboardKey::F9 => "F9",
            KeyboardKey::F10 => "F10",
            KeyboardKey::F11 => "F11",
            KeyboardKey::F12 => "F12",
            KeyboardKey::F13 => "F13",
            KeyboardKey::F14 => "F14",
            KeyboardKey::F15 => "F15",
            KeyboardKey::F16 => "F16",
            KeyboardKey::F17 => "F17",
            KeyboardKey::F18 => "F18",
            KeyboardKey::F19 => "F19",
            KeyboardKey::F20 => "F20",
            KeyboardKey::F21 => "F21",
            KeyboardKey::F22 => "F22",
            KeyboardKey::F23 => "F23",
            KeyboardKey::F24 => "F24",
            KeyboardKey::NumLock => "NumLock",
            KeyboardKey::ScrollLock => "ScrollLock",
            KeyboardKey::CapsLock => "CapsLock",
            KeyboardKey::LShift => "LeftShift",
            KeyboardKey::RShift => "RightShift",
            KeyboardKey::LControl => "LeftControl",
            KeyboardKey::RControl => "RightControl",
            KeyboardKey::LAlt => "LeftAlt",
            KeyboardKey::RAlt => "RightAlt",
            KeyboardKey::BrowserBack => "Back",
            KeyboardKey::BrowserForward => "Forward",
            KeyboardKey::BrowserRefresh => "Refresh",
            KeyboardKey::VolumeMute => "VolumeMute",
            KeyboardKey::VolumeDown => "VolumeDown",
            KeyboardKey::VolumeUp => "VolumeUp",
            KeyboardKey::MediaNextTrack => "MediaNext",
            KeyboardKey::MediaPrevTrack => "MediaPrevious",
            KeyboardKey::MediaStop => "MediaStop",
            KeyboardKey::MediaPlayPause => "MediaPlay",
            KeyboardKey::Backquote => "Backquote",
            KeyboardKey::Slash => "Slash",
            KeyboardKey::Backslash => "Backslash",
            KeyboardKey::Comma => "Comma",
            KeyboardKey::Period => "Period",
            KeyboardKey::Minus => "Minus",
            KeyboardKey::Quote => "Quote",
            KeyboardKey::Semicolon => "Semicolon",
            KeyboardKey::LBracket => "LeftBracket",
            KeyboardKey::RBracket => "RightBracket",
            KeyboardKey::Equal => "Equals",
        };
        String::from_str(text)
    }
}

/// The codes of the table, written out.
pub open spec fn is_listed_code(code: u32) -> bool {
    code == 0x08 || code == 0x09 || code == 0x0D || code == 0x1B || code == 0x20 || code == 0x21 || code == 0x22 || code == 0x23
    || code == 0x24 || code == 0x25 || code == 0x26 || code == 0x27 || code == 0x28 || code == 0x2D || code == 0x2E || code == 0x30
    || code == 0x31 || code == 0x32 || code == 0x33 || code == 0x34 || code == 0x35 || code == 0x36 || code == 0x37 || code == 0x38
    || code == 0x39 || code == 0x41 || code == 0x42 || code == 0x43 || code == 0x44 || code == 0x45 || code == 0x46 || code == 0x47
    || code == 0x48 || code == 0x49 || code == 0x4A || code == 0x4B || code == 0x4C || code == 0x4D || code == 0x4E || code == 0x4F
    || code == 0x50 || code == 0x51 || code == 0x52 || code == 0x53 || code == 0x54 || code == 0x55 || code == 0x56 || code == 0x57
    || code == 0x58 || code == 0x59 || code == 0x5A || code == 0x5B || code == 0x5C || code == 0x60 || code == 0x61 || code == 0x62
    || code == 0x63 || code == 0x64 || code == 0x65 || code == 0x66 || code == 0x67 || code == 0x68 || code == 0x69 || code == 0x70
    || code == 0x71 || code == 0x72 || code == 0x73 || code == 0x74 || code == 0x75 || code == 0x76 || code == 0x77 || code == 0x78
    || code == 0x79 || code == 0x7A || code == 0x7B || code == 0x7C || code == 0x7D || code == 0x7E || code == 0x7F || code == 0x80
    || code == 0x81 || code == 0x82 || code == 0x83 || code == 0x84 || code == 0x85 || code == 0x86 || code == 0x87 || code == 0x90
    || code == 0x91 || code == 0x14 || code == 0xA0 || code == 0xA1 || code == 0xA2 || code == 0xA3 || code == 0xA4 || code == 0xA5
    || code == 0xA6 || code == 0xA7 || code == 0xA8 || code == 0xAD || code == 0xAE || code == 0xAF || code == 0xB0 || code == 0xB1
    || code == 0xB2 || code == 0xB3 || code == 0xC0 || code == 0xBF || code == 0xDC || code == 0xBC || code == 0xBE || code == 0xBD
    || code == 0xDE || code == 0xBA || code == 0xDB || code == 0xDD || code == 0xBB
}

/// Every key carries a listed code, and every listed code has its key.
pub proof fn lemma_codes_listed()
    ensures
        forall|k: KeyboardKey| is_listed_code(#[trigger] k.code()),
        forall|code: u32| is_listed_code(code) <==> #[trigger] is_supported_code(code),
{
    assert forall|code: u32| is_listed_code(code) implies #[trigger] is_supported_code(code) by {
        if code == 0x08 {
            assert(KeyboardKey::Backspace.code() == code);
        } else if code == 0x09 {
            assert(KeyboardKey::Tab.code() == code);
        } else if code == 0x0D {
            assert(KeyboardKey::Enter.code() == code);
        } else if code == 0x1B {
            assert(KeyboardKey::Escape.code() == code);
        } else if code == 0x20 {
            assert(KeyboardKey::Space.code() == code);
        } else if code == 0x21 {
            assert(KeyboardKey::PageUp.code() == code);
        } else if code == 0x22 {
            assert(KeyboardKey::PageDown.code() == code);
        } else if code == 0x23 {
            assert(KeyboardKey::End.code() == code);
        } else if code == 0x24 {
            assert(KeyboardKey::Home.code() == code);
        } else if code == 0x25 {
            assert(KeyboardKey::Left.code() == code);
        } else if code == 0x26 {
            assert(KeyboardKey::Up.code() == code);
        } else if code == 0x27 {
            assert(KeyboardKey::Right.code() == code);
        } else if code == 0x28 {
            assert(KeyboardKey::Down.code() == code);
        } else if code == 0x2D {
            assert(KeyboardKey::Insert.code() == code);
        } else if code == 0x2E {
            assert(KeyboardKey::Delete.code() == code);
        } else if code == 0x30 {
            assert(KeyboardKey::Numrow0.code() == code);
        } else if code == 0x31 {
            assert(KeyboardKey::Numrow1.code() == code);
        } else if code == 0x32 {
            assert(KeyboardKey::Numrow2.code() == code);
        } else if code == 0x33 {
            assert(KeyboardKey::Numrow3.code() == code);
        } else if code == 0x34 {
            assert(KeyboardKey::Numrow4.code() == code);
        } else if code == 0x35 {
            assert(KeyboardKey::Numrow5.code() == code);
        } else if code == 0x36 {
            assert(KeyboardKey::Numrow6.code() == code);
        } else if code == 0x37 {
            assert(KeyboardKey::Numrow7.code() == code);
        } else if code == 0x38 {
            assert(KeyboardKey::Numrow8.code() == code);
        } else if code == 0x39 {
            assert(KeyboardKey::Numrow9.code() == code);
        } else if code == 0x41 {
            assert(KeyboardKey::A.code() == code);
        } else if code == 0x42 {
            assert(KeyboardKey::B.code() == code);
        } else if code == 0x43 {
            assert(KeyboardKey::C.code() == code);
        } else if code == 0x44 {
            assert(KeyboardKey::D.code() == code);
        } else if code == 0x45 {
            assert(KeyboardKey::E.code() == code);
        } else if code == 0x46 {
            assert(KeyboardKey::F.code() == code);
        } else if code == 0x47 {
            assert(KeyboardKey::G.code() == code);
        } else if code == 0x48 {
            assert(KeyboardKey::H.code() == code);
        } else if code == 0x49 {
            assert(KeyboardKey::I.code() == code);
        } else if code == 0x4A {
            assert(KeyboardKey::J.code() == code);
        } else if code == 0x4B {
            assert(KeyboardKey::K.code() == code);
        } else if code == 0x4C {
            assert(KeyboardKey::L.code() == code);
        } else if code == 0x4D {
            assert(KeyboardKey::M.code() == code);
        } else if code == 0x4E {
            assert(KeyboardKey::N.code() == code);
        } else if code == 0x4F {
            assert(KeyboardKey::O.code() == code);
        } else if code == 0x50 {
            assert(KeyboardKey::P.code() == code);
        } else if code == 0x51 {
            assert(KeyboardKey::Q.code() == code);
        } else if code == 0x52 {
            assert(KeyboardKey::R.code() == code);
        } else if code == 0x53 {
            assert(KeyboardKey::S.code() == code);
        } else if code == 0x54 {
            assert(KeyboardKey::T.code() == code);
        } else if code == 0x55 {
            assert(KeyboardKey::U.code() == code);
        } else if code == 0x56 {
            assert(KeyboardKey::V.code() == code);
        } else if code == 0x57 {
            assert(KeyboardKey::W.code() == code);
        } else if code == 0x58 {
            assert(KeyboardKey::X.code() == code);
        } else if code == 0x59 {
            assert(KeyboardKey::Y.code() == code);
        } else if code == 0x5A {
            assert(KeyboardKey::Z.code() == code);
        } else if code == 0x5B {
            assert(KeyboardKey::LSuper.code() == code);
        } else if code == 0x5C {
            assert(KeyboardKey::RSuper.code() == code);
        } else if code == 0x60 {
            assert(KeyboardKey::Numpad0.code() == code);
        } else if code == 0x61 {
            assert(KeyboardKey::Numpad1.code() == code);
        } else if code == 0x62 {
            assert(KeyboardKey::Numpad2.code() == code);
        } else if code == 0x63 {
            assert(KeyboardKey::Numpad3.code() == code);
        } else if code == 0x64 {
            assert(KeyboardKey::Numpad4.code() == code);
        } else if code == 0x65 {
            assert(KeyboardKey::Numpad5.code() == code);
        } else if code == 0x66 {
            assert(KeyboardKey::Numpad6.code() == code);
        } else if code == 0x67 {
            assert(KeyboardKey::Numpad7.code() == code);
        } else if code == 0x68 {
            assert(KeyboardKey::Numpad8.code() == code);
        } else if code == 0x69 {
            assert(KeyboardKey::Numpad9.code() == code);
        } else if code == 0x70 {
            assert(KeyboardKey::F1.code() == code);
        } else if code == 0x71 {
            assert(KeyboardKey::F2.code() == code);
        } else if code == 0x72 {
            assert(KeyboardKey::F3.code() == code);
        } else if code == 0x73 {
            assert(KeyboardKey::F4.code() == code);
        } else if code == 0x74 {
            assert(KeyboardKey::F5.code() == code);
        } else if code == 0x75 {
            assert(KeyboardKey::F6.code() == code);
        } else if code == 0x76 {
            assert(KeyboardKey::F7.code() == code);
        } else if code == 0x77 {
            assert(KeyboardKey::F8.code() == code);
        } else if code == 0x78 {
            assert(KeyboardKey::F9.code() == code);
        } else if code == 0x79 {
            assert(KeyboardKey::F10.code() == code);
        } else if code == 0x7A {
            assert(KeyboardKey::F11.code() == code);
        } else if code == 0x7B {
            assert(KeyboardKey::F12.code() == code);
        } else if code == 0x7C {
            assert(KeyboardKey::F13.code() == code);
        } else if code == 0x7D {
            assert(KeyboardKey::F14.code() == code);
        } else if code == 0x7E {
            assert(KeyboardKey::F15.code() == code);
        } else if code == 0x7F {
            assert(KeyboardKey::F16.code() == code);
        } else if code == 0x80 {
            assert(KeyboardKey::F17.code() == code);
        } else if code == 0x81 {
            assert(KeyboardKey::F18.code() == code);
        } else if code == 0x82 {
            assert(KeyboardKey::F19.code() == code);
        } else if code == 0x83 {
            assert(KeyboardKey::F20.code() == code);
        } else if code == 0x84 {
            assert(KeyboardKey::F21.code() == code);
        } else if code == 0x85 {
            assert(KeyboardKey::F22.code() == code);
        } else if code == 0x86 {
            assert(KeyboardKey::F23.code() == code);
        } else if code == 0x87 {
            assert(KeyboardKey::F24.code() == code);
        } else if code == 0x90 {
            assert(KeyboardKey::NumLock.code() == code);
        } else if code == 0x91 {
            assert(KeyboardKey::ScrollLock.code() == code);
        } else if code == 0x14 {
            assert(KeyboardKey::CapsLock.code() == code);
        } else if code == 0xA0 {
            assert(KeyboardKey::LShift.code() == code);
        } else if code == 0xA1 {
            assert(KeyboardKey::RShift.code() == code);
        } else if code == 0xA2 {
            assert(KeyboardKey::LControl.code() == code);
        } else if code == 0xA3 {
            assert(KeyboardKey::RControl.code() == code);
        } else if code == 0xA4 {
            assert(KeyboardKey::LAlt.code() == code);
        } else if code == 0xA5 {
            assert(KeyboardKey::RAlt.code() == code);
        } else if code == 0xA6 {
            assert(KeyboardKey::BrowserBack.code() == code);
        } else if code == 0xA7 {
            assert(KeyboardKey::BrowserForward.code() == code);
        } else if code == 0xA8 {
            assert(KeyboardKey::BrowserRefresh.code() == code);
        } else if code == 0xAD {
            assert(KeyboardKey::VolumeMute.code() == code);
        } else if code == 0xAE {
            assert(KeyboardKey::VolumeDown.code() == code);
        } else if code == 0xAF {
            assert(KeyboardKey::VolumeUp.code() == code);
        } else if code == 0xB0 {
            assert(KeyboardKey::MediaNextTrack.code() == code);
        } else if code == 0xB1 {
            assert(KeyboardKey::MediaPrevTrack.code() == code);
        } else if code == 0xB2 {
            assert(KeyboardKey::MediaStop.code() == code);
        } else if code == 0xB3 {
            assert(KeyboardKey::MediaPlayPause.code() == code);
        } else if code == 0xC0 {
            assert(KeyboardKey::Backquote.code() == code);
        } else if code == 0xBF {
            assert(KeyboardKey::Slash.code() == code);
        } else if code == 0xDC {
            assert(KeyboardKey::Backslash.code() == code);
        } else if code == 0xBC {
            assert(KeyboardKey::Comma.code() == code);
        } else if code == 0xBE {
            assert(KeyboardKey::Period.code() == code);
        } else if code == 0xBD {
            assert(KeyboardKey::Minus.code() == code);
        } else if code == 0xDE {
            assert(KeyboardKey::Quote.code() == code);
        } else if code == 0xBA {
            assert(KeyboardKey::Semicolon.code() == code);
        } else if code == 0xDB {
            assert(KeyboardKey::LBracket.code() == code);
        } else if code == 0xDD {
            assert(KeyboardKey::RBracket.code() == code);
        } else if code == 0xBB {
            assert(KeyboardKey::Equal.code() == code);
        }
    }
}

/// No other key carries the code of `key`.
pub proof fn lemma_code_injective_at(key: KeyboardKey)
    ensures
        forall|k: KeyboardKey| #[trigger] k.code() == key.code() ==> k == key,
{
}

/// Two keys with one code are one key.
pub proof fn lemma_code_injective(a: KeyboardKey, b: KeyboardKey)
    ensures
        a.code() == b.code() <==> a == b,
{
}

/// Reading a supported code and writing the key back gives the code again;
/// every other code reads as `Escape`, and so does the code of `Escape`.
pub proof fn lemma_code_round_trip(code: u32)
    ensures
        is_supported_code(code) ==> key_of_code(code).code() == code,
        !is_supported_code(code) ==> key_of_code(code) == KeyboardKey::Escape,
        key_of_code(KeyboardKey::Escape.code()) == KeyboardKey::Escape,
{
    lemma_key_round_trip(KeyboardKey::Escape);
}

/// Writing a key's code and reading it back gives the key again.
pub proof fn lemma_key_round_trip(key: KeyboardKey)
    ensures
        is_supported_code(key.code()),
        key_of_code(key.code()) == key,
{
    assert(key.code() == key.code());
    lemma_code_injective_at(key);
}

impl PartialEq for KeyboardKey {
    /// Two keys are equal when their codes are.
    fn eq(&self, other: &Self) -> (same: bool) {
        self.to_code() == other.to_code()
    }
}

impl vstd::std_specs::cmp::PartialEqSpecImpl for KeyboardKey {
    open spec fn obeys_eq_spec() -> bool {
        true
    }

    open spec fn eq_spec(&self, other: &Self) -> bool {
        self.code() == other.code()
    }
}

impl From<u64> for KeyboardKey {
    /// Reads a wide code: one that fits no virtual-key code is no key.
    fn from(value: u64) -> (key: KeyboardKey) {
        if value <= 0xFFFF_FFFF {
            KeyboardKey::from_code(value as u32)
        } else {
            KeyboardKey::Escape
        }
    }
}

impl vstd::std_specs::convert::FromSpecImpl<u64> for KeyboardKey {
    open spec fn obeys_from_spec() -> bool {
        true
    }

    open spec fn from_spec(value: u64) -> KeyboardKey {
        key_of_wide_code(value)
    }
}

impl From<&KeyboardKey> for u64 {
    fn from(value: &KeyboardKey) -> (code: u64) {
        value.to_code() as u64
    }
}

impl vstd::std_specs::convert::FromSpecImpl<&KeyboardKey> for u64 {
    open spec fn obeys_from_spec() -> bool {
        true
    }

    open spec fn from_spec(value: &KeyboardKey) -> u64 {
        value.code() as u64
    }
}

} // verus!

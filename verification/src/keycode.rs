//! Translation of Godot key codes into the key codes that CEF expects.

use vstd::prelude::*;

verus! {

/// A Godot key code: the named keys that the translation tables know,
/// and any other code by its value.
#[allow(non_camel_case_types)]
#[derive(Clone, Copy, Debug, PartialEq, Eq, Structural)]
pub enum Key {
    NONE,
    SPACE,
    APOSTROPHE,
    COMMA,
    MINUS,
    PERIOD,
    SLASH,
    KEY_0,
    KEY_1,
    KEY_2,
    KEY_3,
    KEY_4,
    KEY_5,
    KEY_6,
    KEY_7,
    KEY_8,
    KEY_9,
    SEMICOLON,
    EQUAL,
    A,
    B,
    C,
    D,
    E,
    F,
    G,
    H,
    I,
    J,
    K,
    L,
    M,
    N,
    O,
    P,
    Q,
    R,
    S,
    T,
    U,
    V,
    W,
    X,
    Y,
    Z,
    BRACKETLEFT,
    BACKSLASH,
    BRACKETRIGHT,
    QUOTELEFT,
    ESCAPE,
    TAB,
    BACKSPACE,
    ENTER,
    KP_ENTER,
    INSERT,
    DELETE,
    PAUSE,
    PRINT,
    HOME,
    END,
    LEFT,
    UP,
    RIGHT,
    DOWN,
    PAGEUP,
    PAGEDOWN,
    SHIFT,
    CTRL,
    META,
    ALT,
    CAPSLOCK,
    NUMLOCK,
    SCROLLLOCK,
    F1,
    F2,
    F3,
    F4,
    F5,
    F6,
    F7,
    F8,
    F9,
    F10,
    F11,
    F12,
    KP_MULTIPLY,
    KP_DIVIDE,
    KP_SUBTRACT,
    KP_PERIOD,
    KP_ADD,
    KP_0,
    KP_1,
    KP_2,
    KP_3,
    KP_4,
    KP_5,
    KP_6,
    KP_7,
    KP_8,
    KP_9,
    Other(i32),
}

/// The numeric value of a key code in Godot's `Key` enumeration.
pub open spec fn key_ord(k: Key) -> i32 {
    match k {
        Key::NONE => 0,
        Key::SPACE => 32,
        Key::APOSTROPHE => 39,
        Key::COMMA => 44,
        Key::MINUS => 45,
        Key::PERIOD => 46,
        Key::SLASH => 47,
        Key::KEY_0 => 48,
        Key::KEY_1 => 49,
        Key::KEY_2 => 50,
        Key::KEY_3 => 51,
        Key::KEY_4 => 52,
        Key::KEY_5 => 53,
        Key::KEY_6 => 54,
        Key::KEY_7 => 55,
        Key::KEY_8 => 56,
        Key::KEY_9 => 57,
        Key::SEMICOLON => 59,
        Key::EQUAL => 61,
        Key::A => 65,
        Key::B => 66,
        Key::C => 67,
        Key::D => 68,
        Key::E => 69,
        Key::F => 70,
        Key::G => 71,
        Key::H => 72,
        Key::I => 73,
        Key::J => 74,
        Key::K => 75,
        Key::L => 76,
        Key::M => 77,
        Key::N => 78,
        Key::O => 79,
        Key::P => 80,
        Key::Q => 81,
        Key::R => 82,
        Key::S => 83,
        Key::T => 84,
        Key::U => 85,
        Key::V => 86,
        Key::W => 87,
        Key::X => 88,
        Key::Y => 89,
        Key::Z => 90,
        Key::BRACKETLEFT => 91,
        Key::BACKSLASH => 92,
        Key::BRACKETRIGHT => 93,
        Key::QUOTELEFT => 96,
        Key::ESCAPE => 4194305,
        Key::TAB => 4194306,
        Key::BACKSPACE => 4194308,
        Key::ENTER => 4194309,
        Key::KP_ENTER => 4194310,
        Key::INSERT => 4194311,
        Key::DELETE => 4194312,
        Key::PAUSE => 4194313,
        Key::PRINT => 4194314,
        Key::HOME => 4194317,
        Key::END => 4194318,
        Key::LEFT => 4194319,
        Key::UP => 4194320,
        Key::RIGHT => 4194321,
        Key::DOWN => 4194322,
        Key::PAGEUP => 4194323,
        Key::PAGEDOWN => 4194324,
        Key::SHIFT => 4194325,
        Key::CTRL => 4194326,
        Key::META => 4194327,
        Key::ALT => 4194328,
        Key::CAPSLOCK => 4194329,
        Key::NUMLOCK => 4194330,
        Key::SCROLLLOCK => 4194331,
        Key::F1 => 4194332,
        Key::F2 => 4194333,
        Key::F3 => 4194334,
        Key::F4 => 4194335,
        Key::F5 => 4194336,
        Key::F6 => 4194337,
        Key::F7 => 4194338,
        Key::F8 => 4194339,
        Key::F9 => 4194340,
        Key::F10 => 4194341,
        Key::F11 => 4194342,
        Key::F12 => 4194343,
        Key::KP_MULTIPLY => 4194433,
        Key::KP_DIVIDE => 4194434,
        Key::KP_SUBTRACT => 4194435,
        Key::KP_PERIOD => 4194436,
        Key::KP_ADD => 4194437,
        Key::KP_0 => 4194438,
        Key::KP_1 => 4194439,
        Key::KP_2 => 4194440,
        Key::KP_3 => 4194441,
        Key::KP_4 => 4194442,
        Key::KP_5 => 4194443,
        Key::KP_6 => 4194444,
        Key::KP_7 => 4194445,
        Key::KP_8 => 4194446,
        Key::KP_9 => 4194447,
        Key::Other(v) => v,
    }
}

/// The named key whose Godot value is `v`, if any.
pub open spec fn named_key(v: i32) -> Option<Key> {
    if v == 0 {
        Some(Key::NONE)
    } else if v == 32 {
        Some(Key::SPACE)
    } else if v == 39 {
        Some(Key::APOSTROPHE)
    } else if v == 44 {
        Some(Key::COMMA)
    } else if v == 45 {
        Some(Key::MINUS)
    } else if v == 46 {
        Some(Key::PERIOD)
    } else if v == 47 {
        Some(Key::SLASH)
    } else if v == 48 {
        Some(Key::KEY_0)
    } else if v == 49 {
        Some(Key::KEY_1)
    } else if v == 50 {
        Some(Key::KEY_2)
    } else if v == 51 {
        Some(Key::KEY_3)
    } else if v == 52 {
        Some(Key::KEY_4)
    } else if v == 53 {
        Some(Key::KEY_5)
    } else if v == 54 {
        Some(Key::KEY_6)
    } else if v == 55 {
        Some(Key::KEY_7)
    } else if v == 56 {
        Some(Key::KEY_8)
    } else if v == 57 {
        Some(Key::KEY_9)
    } else if v == 59 {
        Some(Key::SEMICOLON)
    } else if v == 61 {
        Some(Key::EQUAL)
    } else if v == 65 {
        Some(Key::A)
    } else if v == 66 {
        Some(Key::B)
    } else if v == 67 {
        Some(Key::C)
    } else if v == 68 {
        Some(Key::D)
    } else if v == 69 {
        Some(Key::E)
    } else if v == 70 {
        Some(Key::F)
    } else if v == 71 {
        Some(Key::G)
    } else if v == 72 {
        Some(Key::H)
    } else if v == 73 {
        Some(Key::I)
    } else if v == 74 {
        Some(Key::J)
    } else if v == 75 {
        Some(Key::K)
    } else if v == 76 {
        Some(Key::L)
    } else if v == 77 {
        Some(Key::M)
    } else if v == 78 {
        Some(Key::N)
    } else if v == 79 {
        Some(Key::O)
    } else if v == 80 {
        Some(Key::P)
    } else if v == 81 {
        Some(Key::Q)
    } else if v == 82 {
        Some(Key::R)
    } else if v == 83 {
        Some(Key::S)
    } else if v == 84 {
        Some(Key::T)
    } else if v == 85 {
        Some(Key::U)
    } else if v == 86 {
        Some(Key::V)
    } else if v == 87 {
        Some(Key::W)
    } else if v == 88 {
        Some(Key::X)
    } else if v == 89 {
        Some(Key::Y)
    } else if v == 90 {
        Some(Key::Z)
    } else if v == 91 {
        Some(Key::BRACKETLEFT)
    } else if v == 92 {
        Some(Key::BACKSLASH)
    } else if v == 93 {
        Some(Key::BRACKETRIGHT)
    } else if v == 96 {
        Some(Key::QUOTELEFT)
    } else if v == 4194305 {
        Some(Key::ESCAPE)
    } else if v == 4194306 {
        Some(Key::TAB)
    } else if v == 4194308 {
        Some(Key::BACKSPACE)
    } else if v == 4194309 {
        Some(Key::ENTER)
    } else if v == 4194310 {
        Some(Key::KP_ENTER)
    } else if v == 4194311 {
        Some(Key::INSERT)
    } else if v == 4194312 {
        Some(Key::DELETE)
    } else if v == 4194313 {
        Some(Key::PAUSE)
    } else if v == 4194314 {
        Some(Key::PRINT)
    } else if v == 4194317 {
        Some(Key::HOME)
    } else if v == 4194318 {
        Some(Key::END)
    } else if v == 4194319 {
        Some(Key::LEFT)
    } else if v == 4194320 {
        Some(Key::UP)
    } else if v == 4194321 {
        Some(Key::RIGHT)
    } else if v == 4194322 {
        Some(Key::DOWN)
    } else if v == 4194323 {
        Some(Key::PAGEUP)
    } else if v == 4194324 {
        Some(Key::PAGEDOWN)
    } else if v == 4194325 {
        Some(Key::SHIFT)
    } else if v == 4194326 {
        Some(Key::CTRL)
    } else if v == 4194327 {
        Some(Key::META)
    } else if v == 4194328 {
        Some(Key::ALT)
    } else if v == 4194329 {
        Some(Key::CAPSLOCK)
    } else if v == 4194330 {
        Some(Key::NUMLOCK)
    } else if v == 4194331 {
        Some(Key::SCROLLLOCK)
    } else if v == 4194332 {
        Some(Key::F1)
    } else if v == 4194333 {
        Some(Key::F2)
    } else if v == 4194334 {
        Some(Key::F3)
    } else if v == 4194335 {
        Some(Key::F4)
    } else if v == 4194336 {
        Some(Key::F5)
    } else if v == 4194337 {
        Some(Key::F6)
    } else if v == 4194338 {
        Some(Key::F7)
    } else if v == 4194339 {
        Some(Key::F8)
    } else if v == 4194340 {
        Some(Key::F9)
    } else if v == 4194341 {
        Some(Key::F10)
    } else if v == 4194342 {
        Some(Key::F11)
    } else if v == 4194343 {
        Some(Key::F12)
    } else if v == 4194433 {
        Some(Key::KP_MULTIPLY)
    } else if v == 4194434 {
        Some(Key::KP_DIVIDE)
    } else if v == 4194435 {
        Some(Key::KP_SUBTRACT)
    } else if v == 4194436 {
        Some(Key::KP_PERIOD)
    } else if v == 4194437 {
        Some(Key::KP_ADD)
    } else if v == 4194438 {
        Some(Key::KP_0)
    } else if v == 4194439 {
        Some(Key::KP_1)
    } else if v == 4194440 {
        Some(Key::KP_2)
    } else if v == 4194441 {
        Some(Key::KP_3)
    } else if v == 4194442 {
        Some(Key::KP_4)
    } else if v == 4194443 {
        Some(Key::KP_5)
    } else if v == 4194444 {
        Some(Key::KP_6)
    } else if v == 4194445 {
        Some(Key::KP_7)
    } else if v == 4194446 {
        Some(Key::KP_8)
    } else if v == 4194447 {
        Some(Key::KP_9)
    } else {
        None
    }
}

/// The key that Godot's value `v` stands for.
pub open spec fn key_of_ord(v: i32) -> Key {
    match named_key(v) {
        Some(k) => k,
        None => Key::Other(v),
    }
}

/// The form of a key in which named keys are never written as `Other`.
pub open spec fn canonical_key(k: Key) -> Key {
    key_of_ord(key_ord(k))
}

impl Key {
    /// The key's value in Godot's `Key` enumeration.
    pub fn ord(&self) -> (r: i32)
        ensures
            r == key_ord(*self),
    {
        match self {
            Key::NONE => 0,
            Key::SPACE => 32,
            Key::APOSTROPHE => 39,
            Key::COMMA => 44,
            Key::MINUS => 45,
            Key::PERIOD => 46,
            Key::SLASH => 47,
            Key::KEY_0 => 48,
            Key::KEY_1 => 49,
            Key::KEY_2 => 50,
            Key::KEY_3 => 51,
            Key::KEY_4 => 52,
            Key::KEY_5 => 53,
            Key::KEY_6 => 54,
            Key::KEY_7 => 55,
            Key::KEY_8 => 56,
            Key::KEY_9 => 57,
            Key::SEMICOLON => 59,
            Key::EQUAL => 61,
            Key::A => 65,
            Key::B => 66,
            Key::C => 67,
            Key::D => 68,
            Key::E => 69,
            Key::F => 70,
            Key::G => 71,
            Key::H => 72,
            Key::I => 73,
            Key::J => 74,
            Key::K => 75,
            Key::L => 76,
            Key::M => 77,
            Key::N => 78,
            Key::O => 79,
            Key::P => 80,
            Key::Q => 81,
            Key::R => 82,
            Key::S => 83,
            Key::T => 84,
            Key::U => 85,
            Key::V => 86,
            Key::W => 87,
            Key::X => 88,
            Key::Y => 89,
            Key::Z => 90,
            Key::BRACKETLEFT => 91,
            Key::BACKSLASH => 92,
            Key::BRACKETRIGHT => 93,
            Key::QUOTELEFT => 96,
            Key::ESCAPE => 4194305,
            Key::TAB => 4194306,
            Key::BACKSPACE => 4194308,
            Key::ENTER => 4194309,
            Key::KP_ENTER => 4194310,
            Key::INSERT => 4194311,
            Key::DELETE => 4194312,
            Key::PAUSE => 4194313,
            Key::PRINT => 4194314,
            Key::HOME => 4194317,
            Key::END => 4194318,
            Key::LEFT => 4194319,
            Key::UP => 4194320,
            Key::RIGHT => 4194321,
            Key::DOWN => 4194322,
            Key::PAGEUP => 4194323,
            Key::PAGEDOWN => 4194324,
            Key::SHIFT => 4194325,
            Key::CTRL => 4194326,
            Key::META => 4194327,
            Key::ALT => 4194328,
            Key::CAPSLOCK => 4194329,
            Key::NUMLOCK => 4194330,
            Key::SCROLLLOCK => 4194331,
            Key::F1 => 4194332,
            Key::F2 => 4194333,
            Key::F3 => 4194334,
            Key::F4 => 4194335,
            Key::F5 => 4194336,
            Key::F6 => 4194337,
            Key::F7 => 4194338,
            Key::F8 => 4194339,
            Key::F9 => 4194340,
            Key::F10 => 4194341,
            Key::F11 => 4194342,
            Key::F12 => 4194343,
            Key::KP_MULTIPLY => 4194433,
            Key::KP_DIVIDE => 4194434,
            Key::KP_SUBTRACT => 4194435,
            Key::KP_PERIOD => 4194436,
            Key::KP_ADD => 4194437,
            Key::KP_0 => 4194438,
            Key::KP_1 => 4194439,
            Key::KP_2 => 4194440,
            Key::KP_3 => 4194441,
            Key::KP_4 => 4194442,
            Key::KP_5 => 4194443,
            Key::KP_6 => 4194444,
            Key::KP_7 => 4194445,
            Key::KP_8 => 4194446,
            Key::KP_9 => 4194447,
            Key::Other(v) => *v,
        }
    }

    /// The key with Godot value `v`.
    pub fn from_ord(v: i32) -> (r: Key)
        ensures
            r == key_of_ord(v),
            key_ord(r) == v,
    {
        match v {
            0 => Key::NONE,
            32 => Key::SPACE,
            39 => Key::APOSTROPHE,
            44 => Key::COMMA,
            45 => Key::MINUS,
            46 => Key::PERIOD,
            47 => Key::SLASH,
            48 => Key::KEY_0,
            49 => Key::KEY_1,
            50 => Key::KEY_2,
            51 => Key::KEY_3,
            52 => Key::KEY_4,
            53 => Key::KEY_5,
            54 => Key::KEY_6,
            55 => Key::KEY_7,
            56 => Key::KEY_8,
            57 => Key::KEY_9,
            59 => Key::SEMICOLON,
            61 => Key::EQUAL,
            65 => Key::A,
            66 => Key::B,
            67 => Key::C,
            68 => Key::D,
            69 => Key::E,
            70 => Key::F,
            71 => Key::G,
            72 => Key::H,
            73 => Key::I,
            74 => Key::J,
            75 => Key::K,
            76 => Key::L,
            77 => Key::M,
            78 => Key::N,
            79 => Key::O,
            80 => Key::P,
            81 => Key::Q,
            82 => Key::R,
            83 => Key::S,
            84 => Key::T,
            85 => Key::U,
            86 => Key::V,
            87 => Key::W,
            88 => Key::X,
            89 => Key::Y,
            90 => Key::Z,
            91 => Key::BRACKETLEFT,
            92 => Key::BACKSLASH,
            93 => Key::BRACKETRIGHT,
            96 => Key::QUOTELEFT,
            4194305 => Key::ESCAPE,
            4194306 => Key::TAB,
            4194308 => Key::BACKSPACE,
            4194309 => Key::ENTER,
            4194310 => Key::KP_ENTER,
            4194311 => Key::INSERT,
            4194312 => Key::DELETE,
            4194313 => Key::PAUSE,
            4194314 => Key::PRINT,
            4194317 => Key::HOME,
            4194318 => Key::END,
            4194319 => Key::LEFT,
            4194320 => Key::UP,
            4194321 => Key::RIGHT,
            4194322 => Key::DOWN,
            4194323 => Key::PAGEUP,
            4194324 => Key::PAGEDOWN,
            4194325 => Key::SHIFT,
            4194326 => Key::CTRL,
            4194327 => Key::META,
            4194328 => Key::ALT,
            4194329 => Key::CAPSLOCK,
            4194330 => Key::NUMLOCK,
            4194331 => Key::SCROLLLOCK,
            4194332 => Key::F1,
            4194333 => Key::F2,
            4194334 => Key::F3,
            4194335 => Key::F4,
            4194336 => Key::F5,
            4194337 => Key::F6,
            4194338 => Key::F7,
            4194339 => Key::F8,
            4194340 => Key::F9,
            4194341 => Key::F10,
            4194342 => Key::F11,
            4194343 => Key::F12,
            4194433 => Key::KP_MULTIPLY,
            4194434 => Key::KP_DIVIDE,
            4194435 => Key::KP_SUBTRACT,
            4194436 => Key::KP_PERIOD,
            4194437 => Key::KP_ADD,
            4194438 => Key::KP_0,
            4194439 => Key::KP_1,
            4194440 => Key::KP_2,
            4194441 => Key::KP_3,
            4194442 => Key::KP_4,
            4194443 => Key::KP_5,
            4194444 => Key::KP_6,
            4194445 => Key::KP_7,
            4194446 => Key::KP_8,
            4194447 => Key::KP_9,
            _ => Key::Other(v),
        }
    }
}

/// Reading a key back from its value gives the key.
pub proof fn lemma_key_ord_roundtrip(v: i32)
    ensures
        key_ord(key_of_ord(v)) == v,
        canonical_key(key_of_ord(v)) == key_of_ord(v),
{
}

/// The Windows virtual-key code of a key; CEF expects it in
/// `windows_key_code` on every platform. Keys without one keep their
/// Godot value.
pub open spec fn windows_keycode_of(k: Key) -> i32 {
    match k {
        Key::A => 0x41,
        Key::B => 0x42,
        Key::C => 0x43,
        Key::D => 0x44,
        Key::E => 0x45,
        Key::F => 0x46,
        Key::G => 0x47,
        Key::H => 0x48,
        Key::I => 0x49,
        Key::J => 0x4a,
        Key::K => 0x4b,
        Key::L => 0x4c,
        Key::M => 0x4d,
        Key::N => 0x4e,
        Key::O => 0x4f,
        Key::P => 0x50,
        Key::Q => 0x51,
        Key::R => 0x52,
        Key::S => 0x53,
        Key::T => 0x54,
        Key::U => 0x55,
        Key::V => 0x56,
        Key::W => 0x57,
        Key::X => 0x58,
        Key::Y => 0x59,
        Key::Z => 0x5a,
        Key::KEY_0 => 0x30,
        Key::KEY_1 => 0x31,
        Key::KEY_2 => 0x32,
        Key::KEY_3 => 0x33,
        Key::KEY_4 => 0x34,
        Key::KEY_5 => 0x35,
        Key::KEY_6 => 0x36,
        Key::KEY_7 => 0x37,
        Key::KEY_8 => 0x38,
        Key::KEY_9 => 0x39,
        Key::F1 => 0x70,
        Key::F2 => 0x71,
        Key::F3 => 0x72,
        Key::F4 => 0x73,
        Key::F5 => 0x74,
        Key::F6 => 0x75,
        Key::F7 => 0x76,
        Key::F8 => 0x77,
        Key::F9 => 0x78,
        Key::F10 => 0x79,
        Key::F11 => 0x7a,
        Key::F12 => 0x7b,
        Key::KP_0 => 0x60,
        Key::KP_1 => 0x61,
        Key::KP_2 => 0x62,
        Key::KP_3 => 0x63,
        Key::KP_4 => 0x64,
        Key::KP_5 => 0x65,
        Key::KP_6 => 0x66,
        Key::KP_7 => 0x67,
        Key::KP_8 => 0x68,
        Key::KP_9 => 0x69,
        Key::KP_MULTIPLY => 0x6a,
        Key::KP_ADD => 0x6b,
        Key::KP_SUBTRACT => 0x6d,
        Key::KP_PERIOD => 0x6e,
        Key::KP_DIVIDE => 0x6f,
        Key::BACKSPACE => 8,
        Key::TAB => 9,
        Key::ENTER | Key::KP_ENTER => 0xd,
        Key::SHIFT => 0x10,
        Key::CTRL => 0x11,
        Key::ALT => 0x12,
        Key::PAUSE => 0x13,
        Key::CAPSLOCK => 0x14,
        Key::ESCAPE => 0x1b,
        Key::SPACE => 0x20,
        Key::PAGEUP => 0x21,
        Key::PAGEDOWN => 0x22,
        Key::END => 0x23,
        Key::HOME => 0x24,
        Key::LEFT => 0x25,
        Key::UP => 0x26,
        Key::RIGHT => 0x27,
        Key::DOWN => 0x28,
        Key::PRINT => 0x2c,
        Key::INSERT => 0x2d,
        Key::DELETE => 0x2e,
        Key::META => 0x5b,
        Key::SEMICOLON => 0xba,
        Key::EQUAL => 0xbb,
        Key::COMMA => 0xbc,
        Key::MINUS => 0xbd,
        Key::PERIOD => 0xbe,
        Key::SLASH => 0xbf,
        Key::QUOTELEFT => 0xc0,
        Key::BRACKETLEFT => 0xdb,
        Key::BACKSLASH => 0xdc,
        Key::BRACKETRIGHT => 0xdd,
        Key::APOSTROPHE => 0xde,
        Key::NUMLOCK => 0x90,
        Key::SCROLLLOCK => 0x91,
        _ => key_ord(k),
    }
}

/// The macOS virtual key code (HIToolbox `kVK_*`) of a key, 0 if none.
pub open spec fn macos_keycode_of(k: Key) -> i32 {
    match k {
        Key::A => 0,
        Key::S => 1,
        Key::D => 2,
        Key::F => 3,
        Key::H => 4,
        Key::G => 5,
        Key::Z => 6,
        Key::X => 7,
        Key::C => 8,
        Key::V => 9,
        Key::B => 0xb,
        Key::Q => 0xc,
        Key::W => 0xd,
        Key::E => 0xe,
        Key::R => 0xf,
        Key::Y => 0x10,
        Key::T => 0x11,
        Key::O => 0x1f,
        Key::U => 0x20,
        Key::I => 0x22,
        Key::P => 0x23,
        Key::L => 0x25,
        Key::J => 0x26,
        Key::K => 0x28,
        Key::N => 0x2d,
        Key::M => 0x2e,
        Key::KEY_1 => 0x12,
        Key::KEY_2 => 0x13,
        Key::KEY_3 => 0x14,
        Key::KEY_4 => 0x15,
        Key::KEY_5 => 0x17,
        Key::KEY_6 => 0x16,
        Key::KEY_7 => 0x1a,
        Key::KEY_8 => 0x1c,
        Key::KEY_9 => 0x19,
        Key::KEY_0 => 0x1d,
        Key::MINUS => 0x1b,
        Key::EQUAL => 0x18,
        Key::BRACKETLEFT => 0x21,
        Key::BRACKETRIGHT => 0x1e,
        Key::SEMICOLON => 0x29,
        Key::APOSTROPHE => 0x27,
        Key::BACKSLASH => 0x2a,
        Key::COMMA => 0x2b,
        Key::PERIOD => 0x2f,
        Key::SLASH => 0x2c,
        Key::QUOTELEFT => 0x32,
        Key::F1 => 0x7a,
        Key::F2 => 0x78,
        Key::F3 => 0x63,
        Key::F4 => 0x76,
        Key::F5 => 0x60,
        Key::F6 => 0x61,
        Key::F7 => 0x62,
        Key::F8 => 0x64,
        Key::F9 => 0x65,
        Key::F10 => 0x6d,
        Key::F11 => 0x67,
        Key::F12 => 0x6f,
        Key::ENTER => 0x24,
        Key::TAB => 0x30,
        Key::SPACE => 0x31,
        Key::BACKSPACE => 0x33,
        Key::ESCAPE => 0x35,
        Key::META => 0x37,
        Key::SHIFT => 0x38,
        Key::CAPSLOCK => 0x39,
        Key::ALT => 0x3a,
        Key::CTRL => 0x3b,
        Key::LEFT => 0x7b,
        Key::RIGHT => 0x7c,
        Key::DOWN => 0x7d,
        Key::UP => 0x7e,
        Key::HOME => 0x73,
        Key::END => 0x77,
        Key::PAGEUP => 0x74,
        Key::PAGEDOWN => 0x79,
        Key::DELETE => 0x75,
        Key::KP_0 => 0x52,
        Key::KP_1 => 0x53,
        Key::KP_2 => 0x54,
        Key::KP_3 => 0x55,
        Key::KP_4 => 0x56,
        Key::KP_5 => 0x57,
        Key::KP_6 => 0x58,
        Key::KP_7 => 0x59,
        Key::KP_8 => 0x5b,
        Key::KP_9 => 0x5c,
        Key::KP_PERIOD => 0x41,
        Key::KP_MULTIPLY => 0x43,
        Key::KP_ADD => 0x45,
        Key::KP_SUBTRACT => 0x4e,
        Key::KP_DIVIDE => 0x4b,
        Key::KP_ENTER => 0x4c,
        _ => 0,
    }
}

/// The X11 key code (evdev scancode + 8) of a key, 0 if none.
pub open spec fn linux_keycode_of(k: Key) -> i32 {
    match k {
        Key::A => 0x26,
        Key::B => 0x38,
        Key::C => 0x36,
        Key::D => 0x28,
        Key::E => 0x1a,
        Key::F => 0x29,
        Key::G => 0x2a,
        Key::H => 0x2b,
        Key::I => 0x1f,
        Key::J => 0x2c,
        Key::K => 0x2d,
        Key::L => 0x2e,
        Key::M => 0x3a,
        Key::N => 0x39,
        Key::O => 0x20,
        Key::P => 0x21,
        Key::Q => 0x18,
        Key::R => 0x1b,
        Key::S => 0x27,
        Key::T => 0x1c,
        Key::U => 0x1e,
        Key::V => 0x37,
        Key::W => 0x19,
        Key::X => 0x35,
        Key::Y => 0x1d,
        Key::Z => 0x34,
        Key::KEY_0 => 0x13,
        Key::KEY_1 => 0xa,
        Key::KEY_2 => 0xb,
        Key::KEY_3 => 0xc,
        Key::KEY_4 => 0xd,
        Key::KEY_5 => 0xe,
        Key::KEY_6 => 0xf,
        Key::KEY_7 => 0x10,
        Key::KEY_8 => 0x11,
        Key::KEY_9 => 0x12,
        Key::F1 => 0x43,
        Key::F2 => 0x44,
        Key::F3 => 0x45,
        Key::F4 => 0x46,
        Key::F5 => 0x47,
        Key::F6 => 0x48,
        Key::F7 => 0x49,
        Key::F8 => 0x4a,
        Key::F9 => 0x4b,
        Key::F10 => 0x4c,
        Key::F11 => 0x5f,
        Key::F12 => 0x60,
        Key::ESCAPE => 9,
        Key::BACKSPACE => 0x16,
        Key::TAB => 0x17,
        Key::ENTER => 0x24,
        Key::SPACE => 0x41,
        Key::SHIFT => 0x32,
        Key::CTRL => 0x25,
        Key::ALT => 0x40,
        Key::META => 0x85,
        Key::CAPSLOCK => 0x42,
        Key::NUMLOCK => 0x4d,
        Key::SCROLLLOCK => 0x4e,
        Key::LEFT => 0x71,
        Key::UP => 0x6f,
        Key::RIGHT => 0x72,
        Key::DOWN => 0x74,
        Key::HOME => 0x6e,
        Key::END => 0x73,
        Key::PAGEUP => 0x70,
        Key::PAGEDOWN => 0x75,
        Key::INSERT => 0x76,
        Key::DELETE => 0x77,
        Key::MINUS => 0x14,
        Key::EQUAL => 0x15,
        Key::BRACKETLEFT => 0x22,
        Key::BRACKETRIGHT => 0x23,
        Key::SEMICOLON => 0x2f,
        Key::APOSTROPHE => 0x30,
        Key::BACKSLASH => 0x33,
        Key::COMMA => 0x3b,
        Key::PERIOD => 0x3c,
        Key::SLASH => 0x3d,
        Key::QUOTELEFT => 0x31,
        Key::KP_0 => 0x5a,
        Key::KP_1 => 0x57,
        Key::KP_2 => 0x58,
        Key::KP_3 => 0x59,
        Key::KP_4 => 0x53,
        Key::KP_5 => 0x54,
        Key::KP_6 => 0x55,
        Key::KP_7 => 0x4f,
        Key::KP_8 => 0x50,
        Key::KP_9 => 0x51,
        Key::KP_PERIOD => 0x5b,
        Key::KP_MULTIPLY => 0x3f,
        Key::KP_ADD => 0x56,
        Key::KP_SUBTRACT => 0x52,
        Key::KP_DIVIDE => 0x6a,
        Key::KP_ENTER => 0x68,
        _ => 0,
    }
}

/// Converts a Godot key code to the Windows virtual key code.
pub fn godot_key_to_windows_keycode(key: Key) -> (r: i32)
    ensures
        r == windows_keycode_of(canonical_key(key)),
{
    let key = Key::from_ord(key.ord());
    match key {
        Key::A => 0x41,
        Key::B => 0x42,
        Key::C => 0x43,
        Key::D => 0x44,
        Key::E => 0x45,
        Key::F => 0x46,
        Key::G => 0x47,
        Key::H => 0x48,
        Key::I => 0x49,
        Key::J => 0x4a,
        Key::K => 0x4b,
        Key::L => 0x4c,
        Key::M => 0x4d,
        Key::N => 0x4e,
        Key::O => 0x4f,
        Key::P => 0x50,
        Key::Q => 0x51,
        Key::R => 0x52,
        Key::S => 0x53,
        Key::T => 0x54,
        Key::U => 0x55,
        Key::V => 0x56,
        Key::W => 0x57,
        Key::X => 0x58,
        Key::Y => 0x59,
        Key::Z => 0x5a,
        Key::KEY_0 => 0x30,
        Key::KEY_1 => 0x31,
        Key::KEY_2 => 0x32,
        Key::KEY_3 => 0x33,
        Key::KEY_4 => 0x34,
        Key::KEY_5 => 0x35,
        Key::KEY_6 => 0x36,
        Key::KEY_7 => 0x37,
        Key::KEY_8 => 0x38,
        Key::KEY_9 => 0x39,
        Key::F1 => 0x70,
        Key::F2 => 0x71,
        Key::F3 => 0x72,
        Key::F4 => 0x73,
        Key::F5 => 0x74,
        Key::F6 => 0x75,
        Key::F7 => 0x76,
        Key::F8 => 0x77,
        Key::F9 => 0x78,
        Key::F10 => 0x79,
        Key::F11 => 0x7a,
        Key::F12 => 0x7b,
        Key::KP_0 => 0x60,
        Key::KP_1 => 0x61,
        Key::KP_2 => 0x62,
        Key::KP_3 => 0x63,
        Key::KP_4 => 0x64,
        Key::KP_5 => 0x65,
        Key::KP_6 => 0x66,
        Key::KP_7 => 0x67,
        Key::KP_8 => 0x68,
        Key::KP_9 => 0x69,
        Key::KP_MULTIPLY => 0x6a,
        Key::KP_ADD => 0x6b,
        Key::KP_SUBTRACT => 0x6d,
        Key::KP_PERIOD => 0x6e,
        Key::KP_DIVIDE => 0x6f,
        Key::BACKSPACE => 8,
        Key::TAB => 9,
        Key::ENTER | Key::KP_ENTER => 0xd,
        Key::SHIFT => 0x10,
        Key::CTRL => 0x11,
        Key::ALT => 0x12,
        Key::PAUSE => 0x13,
        Key::CAPSLOCK => 0x14,
        Key::ESCAPE => 0x1b,
        Key::SPACE => 0x20,
        Key::PAGEUP => 0x21,
        Key::PAGEDOWN => 0x22,
        Key::END => 0x23,
        Key::HOME => 0x24,
        Key::LEFT => 0x25,
        Key::UP => 0x26,
        Key::RIGHT => 0x27,
        Key::DOWN => 0x28,
        Key::PRINT => 0x2c,
        Key::INSERT => 0x2d,
        Key::DELETE => 0x2e,
        Key::META => 0x5b,
        Key::SEMICOLON => 0xba,
        Key::EQUAL => 0xbb,
        Key::COMMA => 0xbc,
        Key::MINUS => 0xbd,
        Key::PERIOD => 0xbe,
        Key::SLASH => 0xbf,
        Key::QUOTELEFT => 0xc0,
        Key::BRACKETLEFT => 0xdb,
        Key::BACKSLASH => 0xdc,
        Key::BRACKETRIGHT => 0xdd,
        Key::APOSTROPHE => 0xde,
        Key::NUMLOCK => 0x90,
        Key::SCROLLLOCK => 0x91,
        _ => key.ord(),
    }
}

/// Converts a Godot key code to the macOS virtual key code.
pub fn godot_key_to_macos_keycode(key: Key) -> (r: i32)
    ensures
        r == macos_keycode_of(canonical_key(key)),
{
    let key = Key::from_ord(key.ord());
    match key {
        Key::A => 0,
        Key::S => 1,
        Key::D => 2,
        Key::F => 3,
        Key::H => 4,
        Key::G => 5,
        Key::Z => 6,
        Key::X => 7,
        Key::C => 8,
        Key::V => 9,
        Key::B => 0xb,
        Key::Q => 0xc,
        Key::W => 0xd,
        Key::E => 0xe,
        Key::R => 0xf,
        Key::Y => 0x10,
        Key::T => 0x11,
        Key::O => 0x1f,
        Key::U => 0x20,
        Key::I => 0x22,
        Key::P => 0x23,
        Key::L => 0x25,
        Key::J => 0x26,
        Key::K => 0x28,
        Key::N => 0x2d,
        Key::M => 0x2e,
        Key::KEY_1 => 0x12,
        Key::KEY_2 => 0x13,
        Key::KEY_3 => 0x14,
        Key::KEY_4 => 0x15,
        Key::KEY_5 => 0x17,
        Key::KEY_6 => 0x16,
        Key::KEY_7 => 0x1a,
        Key::KEY_8 => 0x1c,
        Key::KEY_9 => 0x19,
        Key::KEY_0 => 0x1d,
        Key::MINUS => 0x1b,
        Key::EQUAL => 0x18,
        Key::BRACKETLEFT => 0x21,
        Key::BRACKETRIGHT => 0x1e,
        Key::SEMICOLON => 0x29,
        Key::APOSTROPHE => 0x27,
        Key::BACKSLASH => 0x2a,
        Key::COMMA => 0x2b,
        Key::PERIOD => 0x2f,
        Key::SLASH => 0x2c,
        Key::QUOTELEFT => 0x32,
        Key::F1 => 0x7a,
        Key::F2 => 0x78,
        Key::F3 => 0x63,
        Key::F4 => 0x76,
        Key::F5 => 0x60,
        Key::F6 => 0x61,
        Key::F7 => 0x62,
        Key::F8 => 0x64,
        Key::F9 => 0x65,
        Key::F10 => 0x6d,
        Key::F11 => 0x67,
        Key::F12 => 0x6f,
        Key::ENTER => 0x24,
        Key::TAB => 0x30,
        Key::SPACE => 0x31,
        Key::BACKSPACE => 0x33,
        Key::ESCAPE => 0x35,
        Key::META => 0x37,
        Key::SHIFT => 0x38,
        Key::CAPSLOCK => 0x39,
        Key::ALT => 0x3a,
        Key::CTRL => 0x3b,
        Key::LEFT => 0x7b,
        Key::RIGHT => 0x7c,
        Key::DOWN => 0x7d,
        Key::UP => 0x7e,
        Key::HOME => 0x73,
        Key::END => 0x77,
        Key::PAGEUP => 0x74,
        Key::PAGEDOWN => 0x79,
        Key::DELETE => 0x75,
        Key::KP_0 => 0x52,
        Key::KP_1 => 0x53,
        Key::KP_2 => 0x54,
        Key::KP_3 => 0x55,
        Key::KP_4 => 0x56,
        Key::KP_5 => 0x57,
        Key::KP_6 => 0x58,
        Key::KP_7 => 0x59,
        Key::KP_8 => 0x5b,
        Key::KP_9 => 0x5c,
        Key::KP_PERIOD => 0x41,
        Key::KP_MULTIPLY => 0x43,
        Key::KP_ADD => 0x45,
        Key::KP_SUBTRACT => 0x4e,
        Key::KP_DIVIDE => 0x4b,
        Key::KP_ENTER => 0x4c,
        _ => 0,
    }
}

/// Converts a Godot key code to the X11 key code.
pub fn godot_key_to_linux_keycode(key: Key) -> (r: i32)
    ensures
        r == linux_keycode_of(canonical_key(key)),
{
    let key = Key::from_ord(key.ord());
    match key {
        Key::A => 0x26,
        Key::B => 0x38,
        Key::C => 0x36,
        Key::D => 0x28,
        Key::E => 0x1a,
        Key::F => 0x29,
        Key::G => 0x2a,
        Key::H => 0x2b,
        Key::I => 0x1f,
        Key::J => 0x2c,
        Key::K => 0x2d,
        Key::L => 0x2e,
        Key::M => 0x3a,
        Key::N => 0x39,
        Key::O => 0x20,
        Key::P => 0x21,
        Key::Q => 0x18,
        Key::R => 0x1b,
        Key::S => 0x27,
        Key::T => 0x1c,
        Key::U => 0x1e,
        Key::V => 0x37,
        Key::W => 0x19,
        Key::X => 0x35,
        Key::Y => 0x1d,
        Key::Z => 0x34,
        Key::KEY_0 => 0x13,
        Key::KEY_1 => 0xa,
        Key::KEY_2 => 0xb,
        Key::KEY_3 => 0xc,
        Key::KEY_4 => 0xd,
        Key::KEY_5 => 0xe,
        Key::KEY_6 => 0xf,
        Key::KEY_7 => 0x10,
        Key::KEY_8 => 0x11,
        Key::KEY_9 => 0x12,
        Key::F1 => 0x43,
        Key::F2 => 0x44,
        Key::F3 => 0x45,
        Key::F4 => 0x46,
        Key::F5 => 0x47,
        Key::F6 => 0x48,
        Key::F7 => 0x49,
        Key::F8 => 0x4a,
        Key::F9 => 0x4b,
        Key::F10 => 0x4c,
        Key::F11 => 0x5f,
        Key::F12 => 0x60,
        Key::ESCAPE => 9,
        Key::BACKSPACE => 0x16,
        Key::TAB => 0x17,
        Key::ENTER => 0x24,
        Key::SPACE => 0x41,
        Key::SHIFT => 0x32,
        Key::CTRL => 0x25,
        Key::ALT => 0x40,
        Key::META => 0x85,
        Key::CAPSLOCK => 0x42,
        Key::NUMLOCK => 0x4d,
        Key::SCROLLLOCK => 0x4e,
        Key::LEFT => 0x71,
        Key::UP => 0x6f,
        Key::RIGHT => 0x72,
        Key::DOWN => 0x74,
        Key::HOME => 0x6e,
        Key::END => 0x73,
        Key::PAGEUP => 0x70,
        Key::PAGEDOWN => 0x75,
        Key::INSERT => 0x76,
        Key::DELETE => 0x77,
        Key::MINUS => 0x14,
        Key::EQUAL => 0x15,
        Key::BRACKETLEFT => 0x22,
        Key::BRACKETRIGHT => 0x23,
        Key::SEMICOLON => 0x2f,
        Key::APOSTROPHE => 0x30,
        Key::BACKSLASH => 0x33,
        Key::COMMA => 0x3b,
        Key::PERIOD => 0x3c,
        Key::SLASH => 0x3d,
        Key::QUOTELEFT => 0x31,
        Key::KP_0 => 0x5a,
        Key::KP_1 => 0x57,
        Key::KP_2 => 0x58,
        Key::KP_3 => 0x59,
        Key::KP_4 => 0x53,
        Key::KP_5 => 0x54,
        Key::KP_6 => 0x55,
        Key::KP_7 => 0x4f,
        Key::KP_8 => 0x50,
        Key::KP_9 => 0x51,
        Key::KP_PERIOD => 0x5b,
        Key::KP_MULTIPLY => 0x3f,
        Key::KP_ADD => 0x56,
        Key::KP_SUBTRACT => 0x52,
        Key::KP_DIVIDE => 0x6a,
        Key::KP_ENTER => 0x68,
        _ => 0,
    }
}

/// `VK_F1` of the Windows API: F1 to F24 are consecutive from it.
pub const VK_F1: i32 = 0x70;

/// `VK_NUMPAD0` of the Windows API: the keypad digits are consecutive from it.
pub const VK_NUMPAD0: i32 = 0x60;

/// `VK_LEFT` of the Windows API: left, up, right and down are consecutive
/// from it, in that order.
pub const VK_LEFT: i32 = 0x25;

/// The X11 key code of the `1` key: the digit row `1` to `9`, then `0`, is
/// consecutive from it.
pub const X11_KEY_1: i32 = 0xa;

/// The X11 key code of F1: F1 to F10 are consecutive from it.
pub const X11_F1: i32 = 0x43;

/// Windows virtual-key codes follow Godot's key values block by block:
/// letters and digits are their own ASCII codes, F1-F12 count up from
/// `VK_F1`, the keypad digits from `VK_NUMPAD0`, and the arrows, in
/// Godot's order left, up, right, down, from `VK_LEFT`.
pub proof fn lemma_windows_keycode_blocks(k: Key)
    requires
        k !is Other,
    ensures
        key_ord(Key::A) <= key_ord(k) <= key_ord(Key::Z) ==> windows_keycode_of(k) == key_ord(k),
        key_ord(Key::KEY_0) <= key_ord(k) <= key_ord(Key::KEY_9) ==> windows_keycode_of(k)
            == key_ord(k),
        key_ord(Key::F1) <= key_ord(k) <= key_ord(Key::F12) ==> windows_keycode_of(k) == VK_F1
            + (key_ord(k) - key_ord(Key::F1)),
        key_ord(Key::KP_0) <= key_ord(k) <= key_ord(Key::KP_9) ==> windows_keycode_of(k)
            == VK_NUMPAD0 + (key_ord(k) - key_ord(Key::KP_0)),
        key_ord(Key::LEFT) <= key_ord(k) <= key_ord(Key::DOWN) ==> windows_keycode_of(k)
            == VK_LEFT + (key_ord(k) - key_ord(Key::LEFT)),
{
}

/// X11 key codes of the digit row count up from `1` to `9` with `0` last,
/// and F1-F10 count up from `X11_F1`.
pub proof fn lemma_linux_keycode_blocks(k: Key)
    requires
        k !is Other,
    ensures
        key_ord(Key::KEY_1) <= key_ord(k) <= key_ord(Key::KEY_9) ==> linux_keycode_of(k)
            == X11_KEY_1 + (key_ord(k) - key_ord(Key::KEY_1)),
        k == Key::KEY_0 ==> linux_keycode_of(k) == X11_KEY_1 + 9,
        key_ord(Key::F1) <= key_ord(k) <= key_ord(Key::F10) ==> linux_keycode_of(k) == X11_F1
            + (key_ord(k) - key_ord(Key::F1)),
{
}

/// `kVK_LeftArrow` of macOS: left, right, down and up are consecutive
/// from it, in that order.
pub const KVK_LEFT_ARROW: i32 = 0x7b;

/// `kVK_ANSI_Keypad0` of macOS: keypad digits 0 to 7 are consecutive from it.
pub const KVK_KEYPAD_0: i32 = 0x52;

/// The position of an arrow key in the order of the macOS arrow codes: left,
/// right, down, up.
pub open spec fn apple_arrow_rank(k: Key) -> int {
    match k {
        Key::LEFT => 0,
        Key::RIGHT => 1,
        Key::DOWN => 2,
        Key::UP => 3,
        _ => -1,
    }
}

/// macOS key codes of the arrows count up from `kVK_LeftArrow` in Apple's
/// order, and those of keypad digits 0 to 7 count up from
/// `kVK_ANSI_Keypad0`.
pub proof fn lemma_macos_keycode_blocks(k: Key)
    requires
        k !is Other,
    ensures
        key_ord(Key::LEFT) <= key_ord(k) <= key_ord(Key::DOWN) ==> macos_keycode_of(k)
            == KVK_LEFT_ARROW + apple_arrow_rank(k),
        key_ord(Key::KP_0) <= key_ord(k) <= key_ord(Key::KP_7) ==> macos_keycode_of(k)
            == KVK_KEYPAD_0 + (key_ord(k) - key_ord(Key::KP_0)),
{
}

/// The operating systems whose native key codes CEF receives.
#[derive(Clone, Copy, Debug, PartialEq, Eq, Structural)]
pub enum TargetOs {
    Windows,
    MacOs,
    Linux,
}

pub open spec fn native_keycode_of(os: TargetOs, k: Key) -> i32 {
    match os {
        TargetOs::Windows => windows_keycode_of(k),
        TargetOs::MacOs => macos_keycode_of(k),
        TargetOs::Linux => linux_keycode_of(k),
    }
}

/// Converts a Godot key code to the native key code of `os`.
pub fn godot_key_to_native_keycode(os: TargetOs, key: Key) -> (r: i32)
    ensures
        r == native_keycode_of(os, canonical_key(key)),
{
    match os {
        TargetOs::Windows => godot_key_to_windows_keycode(key),
        TargetOs::MacOs => godot_key_to_macos_keycode(key),
        TargetOs::Linux => godot_key_to_linux_keycode(key),
    }
}

} // verus!

use vstd::prelude::*;

verus! {
/// Number of keys in the catalog; codes run densely from 0 to `KEY_COUNT - 1`.
pub const KEY_COUNT: u8 = 79;

/// A physical key. Its code (see [`Key::code`]) is its position in this list,
/// and doubles as its bit position in an encoded keyboard buffer.
#[derive(Clone, Copy, Debug, PartialEq, Eq, Structural, Hash)]
pub enum Key {
    ArrowUp,
    ArrowDown,
    ArrowLeft,
    ArrowRight,
    KeyA,
    KeyB,
    KeyC,
    KeyD,
    KeyE,
    KeyF,
    KeyG,
    KeyH,
    KeyI,
    KeyJ,
    KeyK,
    KeyL,
    KeyM,
    KeyN,
    KeyO,
    KeyP,
    KeyQ,
    KeyR,
    KeyS,
    KeyT,
    KeyU,
    KeyV,
    KeyW,
    KeyX,
    KeyY,
    KeyZ,
    Minus,
    Equal,
    Digit0,
    Digit1,
    Digit2,
    Digit3,
    Digit4,
    Digit5,
    Digit6,
    Digit7,
    Digit8,
    Digit9,
    Enter,
    Escape,
    Backspace,
    Tab,
    Space,
    BracketLeft,
    BracketRight,
    Backslash,
    Semicolon,
    Quote,
    Backquote,
    Comma,
    Period,
    Slash,
    ShiftLeft,
    ShiftRight,
    ControlLeft,
    ControlRight,
    AltLeft,
    AltRight,
    MetaLeft,
    CapsLock,
    IntlBackslash,
    IntlRo,
    IntlYen,
    F1,
    F2,
    F3,
    F4,
    F5,
    F6,
    F7,
    F8,
    F9,
    F10,
    F11,
    F12,
}

impl Key {
    /// The code of this key.
    pub open spec fn spec_code(self) -> u8 {
        match self {
            Key::ArrowUp => 0,
            Key::ArrowDown => 1,
            Key::ArrowLeft => 2,
            Key::ArrowRight => 3,
            Key::KeyA => 4,
            Key::KeyB => 5,
            Key::KeyC => 6,
            Key::KeyD => 7,
            Key::KeyE => 8,
            Key::KeyF => 9,
            Key::KeyG => 10,
            Key::KeyH => 11,
            Key::KeyI => 12,
            Key::KeyJ => 13,
            Key::KeyK => 14,
            Key::KeyL => 15,
            Key::KeyM => 16,
            Key::KeyN => 17,
            Key::KeyO => 18,
            Key::KeyP => 19,
            Key::KeyQ => 20,
            Key::KeyR => 21,
            Key::KeyS => 22,
            Key::KeyT => 23,
            Key::KeyU => 24,
            Key::KeyV => 25,
            Key::KeyW => 26,
            Key::KeyX => 27,
            Key::KeyY => 28,
            Key::KeyZ => 29,
            Key::Minus => 30,
            Key::Equal => 31,
            Key::Digit0 => 32,
            Key::Digit1 => 33,
            Key::Digit2 => 34,
            Key::Digit3 => 35,
            Key::Digit4 => 36,
            Key::Digit5 => 37,
            Key::Digit6 => 38,
            Key::Digit7 => 39,
            Key::Digit8 => 40,
            Key::Digit9 => 41,
            Key::Enter => 42,
            Key::Escape => 43,
            Key::Backspace => 44,
            Key::Tab => 45,
            Key::Space => 46,
            Key::BracketLeft => 47,
            Key::BracketRight => 48,
            Key::Backslash => 49,
            Key::Semicolon => 50,
            Key::Quote => 51,
            Key::Backquote => 52,
            Key::Comma => 53,
            Key::Period => 54,
            Key::Slash => 55,
            Key::ShiftLeft => 56,
            Key::ShiftRight => 57,
            Key::ControlLeft => 58,
            Key::ControlRight => 59,
            Key::AltLeft => 60,
            Key::AltRight => 61,
            Key::MetaLeft => 62,
            Key::CapsLock => 63,
            Key::IntlBackslash => 64,
            Key::IntlRo => 65,
            Key::IntlYen => 66,
            Key::F1 => 67,
            Key::F2 => 68,
            Key::F3 => 69,
            Key::F4 => 70,
            Key::F5 => 71,
            Key::F6 => 72,
            Key::F7 => 73,
            Key::F8 => 74,
            Key::F9 => 75,
            Key::F10 => 76,
            Key::F11 => 77,
            Key::F12 => 78,
        }
    }

    /// The code of this key, in `0..KEY_COUNT`.
    #[verifier::when_used_as_spec(spec_code)]
    pub fn code(self) -> (r: u8)
        ensures
            r == self.spec_code(),
            r < KEY_COUNT,
    {
        match self {
            Key::ArrowUp => 0,
            Key::ArrowDown => 1,
            Key::ArrowLeft => 2,
            Key::ArrowRight => 3,
            Key::KeyA => 4,
            Key::KeyB => 5,
            Key::KeyC => 6,
            Key::KeyD => 7,
            Key::KeyE => 8,
            Key::KeyF => 9,
            Key::KeyG => 10,
            Key::KeyH => 11,
            Key::KeyI => 12,
            Key::KeyJ => 13,
            Key::KeyK => 14,
            Key::KeyL => 15,
            Key::KeyM => 16,
            Key::KeyN => 17,
            Key::KeyO => 18,
            Key::KeyP => 19,
            Key::KeyQ => 20,
            Key::KeyR => 21,
            Key::KeyS => 22,
            Key::KeyT => 23,
            Key::KeyU => 24,
            Key::KeyV => 25,
            Key::KeyW => 26,
            Key::KeyX => 27,
            Key::KeyY => 28,
            Key::KeyZ => 29,
            Key::Minus => 30,
            Key::Equal => 31,
            Key::Digit0 => 32,
            Key::Digit1 => 33,
            Key::Digit2 => 34,
            Key::Digit3 => 35,
            Key::Digit4 => 36,
            Key::Digit5 => 37,
            Key::Digit6 => 38,
            Key::Digit7 => 39,
            Key::Digit8 => 40,
            Key::Digit9 => 41,
            Key::Enter => 42,
            Key::Escape => 43,
            Key::Backspace => 44,
            Key::Tab => 45,
            Key::Space => 46,
            Key::BracketLeft => 47,
            Key::BracketRight => 48,
            Key::Backslash => 49,
            Key::Semicolon => 50,
            Key::Quote => 51,
            Key::Backquote => 52,
            Key::Comma => 53,
            Key::Period => 54,
            Key::Slash => 55,
            Key::ShiftLeft => 56,
            Key::ShiftRight => 57,
            Key::ControlLeft => 58,
            Key::ControlRight => 59,
            Key::AltLeft => 60,
            Key::AltRight => 61,
            Key::MetaLeft => 62,
            Key::CapsLock => 63,
            Key::IntlBackslash => 64,
            Key::IntlRo => 65,
            Key::IntlYen => 66,
            Key::F1 => 67,
            Key::F2 => 68,
            Key::F3 => 69,
            Key::F4 => 70,
            Key::F5 => 71,
            Key::F6 => 72,
            Key::F7 => 73,
            Key::F8 => 74,
            Key::F9 => 75,
            Key::F10 => 76,
            Key::F11 => 77,
            Key::F12 => 78,
        }
    }

    /// The key whose code is `c`.
    pub open spec fn spec_from_code(c: u8) -> Key {
        if c == 0 {
            Key::ArrowUp
        } else if c == 1 {
            Key::ArrowDown
        } else if c == 2 {
            Key::ArrowLeft
        } else if c == 3 {
            Key::ArrowRight
        } else if c == 4 {
            Key::KeyA
        } else if c == 5 {
            Key::KeyB
        } else if c == 6 {
            Key::KeyC
        } else if c == 7 {
            Key::KeyD
        } else if c == 8 {
            Key::KeyE
        } else if c == 9 {
            Key::KeyF
        } else if c == 10 {
            Key::KeyG
        } else if c == 11 {
            Key::KeyH
        } else if c == 12 {
            Key::KeyI
        } else if c == 13 {
            Key::KeyJ
        } else if c == 14 {
            Key::KeyK
        } else if c == 15 {
            Key::KeyL
        } else if c == 16 {
            Key::KeyM
        } else if c == 17 {
            Key::KeyN
        } else if c == 18 {
            Key::KeyO
        } else if c == 19 {
            Key::KeyP
        } else if c == 20 {
            Key::KeyQ
        } else if c == 21 {
            Key::KeyR
        } else if c == 22 {
            Key::KeyS
        } else if c == 23 {
            Key::KeyT
        } else if c == 24 {
            Key::KeyU
        } else if c == 25 {
            Key::KeyV
        } else if c == 26 {
            Key::KeyW
        } else if c == 27 {
            Key::KeyX
        } else if c == 28 {
            Key::KeyY
        } else if c == 29 {
            Key::KeyZ
        } else if c == 30 {
            Key::Minus
        } else if c == 31 {
            Key::Equal
        } else if c == 32 {
            Key::Digit0
        } else if c == 33 {
            Key::Digit1
        } else if c == 34 {
            Key::Digit2
        } else if c == 35 {
            Key::Digit3
        } else if c == 36 {
            Key::Digit4
        } else if c == 37 {
            Key::Digit5
        } else if c == 38 {
            Key::Digit6
        } else if c == 39 {
            Key::Digit7
        } else if c == 40 {
            Key::Digit8
        } else if c == 41 {
            Key::Digit9
        } else if c == 42 {
            Key::Enter
        } else if c == 43 {
            Key::Escape
        } else if c == 44 {
            Key::Backspace
        } else if c == 45 {
            Key::Tab
        } else if c == 46 {
            Key::Space
        } else if c == 47 {
            Key::BracketLeft
        } else if c == 48 {
            Key::BracketRight
        } else if c == 49 {
            Key::Backslash
        } else if c == 50 {
            Key::Semicolon
        } else if c == 51 {
            Key::Quote
        } else if c == 52 {
            Key::Backquote
        } else if c == 53 {
            Key::Comma
        } else if c == 54 {
            Key::Period
        } else if c == 55 {
            Key::Slash
        } else if c == 56 {
            Key::ShiftLeft
        } else if c == 57 {
            Key::ShiftRight
        } else if c == 58 {
            Key::ControlLeft
        } else if c == 59 {
            Key::ControlRight
        } else if c == 60 {
            Key::AltLeft
        } else if c == 61 {
            Key::AltRight
        } else if c == 62 {
            Key::MetaLeft
        } else if c == 63 {
            Key::CapsLock
        } else if c == 64 {
            Key::IntlBackslash
        } else if c == 65 {
            Key::IntlRo
        } else if c == 66 {
            Key::IntlYen
        } else if c == 67 {
            Key::F1
        } else if c == 68 {
            Key::F2
        } else if c == 69 {
            Key::F3
        } else if c == 70 {
            Key::F4
        } else if c == 71 {
            Key::F5
        } else if c == 72 {
            Key::F6
        } else if c == 73 {
            Key::F7
        } else if c == 74 {
            Key::F8
        } else if c == 75 {
            Key::F9
        } else if c == 76 {
            Key::F10
        } else if c == 77 {
            Key::F11
        } else {
            Key::F12
        }
    }

    /// The key whose code is `c`; a code outside the catalog is a caller's error.
    pub fn from_code(c: u8) -> (r: Key)
        requires
            c < KEY_COUNT,
        ensures
            r == Key::spec_from_code(c),
            r.code() == c,
    {
        match c {
            0 => Key::ArrowUp,
            1 => Key::ArrowDown,
            2 => Key::ArrowLeft,
            3 => Key::ArrowRight,
            4 => Key::KeyA,
            5 => Key::KeyB,
            6 => Key::KeyC,
            7 => Key::KeyD,
            8 => Key::KeyE,
            9 => Key::KeyF,
            10 => Key::KeyG,
            11 => Key::KeyH,
            12 => Key::KeyI,
            13 => Key::KeyJ,
            14 => Key::KeyK,
            15 => Key::KeyL,
            16 => Key::KeyM,
            17 => Key::KeyN,
            18 => Key::KeyO,
            19 => Key::KeyP,
            20 => Key::KeyQ,
            21 => Key::KeyR,
            22 => Key::KeyS,
            23 => Key::KeyT,
            24 => Key::KeyU,
            25 => Key::KeyV,
            26 => Key::KeyW,
            27 => Key::KeyX,
            28 => Key::KeyY,
            29 => Key::KeyZ,
            30 => Key::Minus,
            31 => Key::Equal,
            32 => Key::Digit0,
            33 => Key::Digit1,
            34 => Key::Digit2,
            35 => Key::Digit3,
            36 => Key::Digit4,
            37 => Key::Digit5,
            38 => Key::Digit6,
            39 => Key::Digit7,
            40 => Key::Digit8,
            41 => Key::Digit9,
            42 => Key::Enter,
            43 => Key::Escape,
            44 => Key::Backspace,
            45 => Key::Tab,
            46 => Key::Space,
            47 => Key::BracketLeft,
            48 => Key::BracketRight,
            49 => Key::Backslash,
            50 => Key::Semicolon,
            51 => Key::Quote,
            52 => Key::Backquote,
            53 => Key::Comma,
            54 => Key::Period,
            55 => Key::Slash,
            56 => Key::ShiftLeft,
            57 => Key::ShiftRight,
            58 => Key::ControlLeft,
            59 => Key::ControlRight,
            60 => Key::AltLeft,
            61 => Key::AltRight,
            62 => Key::MetaLeft,
            63 => Key::CapsLock,
            64 => Key::IntlBackslash,
            65 => Key::IntlRo,
            66 => Key::IntlYen,
            67 => Key::F1,
            68 => Key::F2,
            69 => Key::F3,
            70 => Key::F4,
            71 => Key::F5,
            72 => Key::F6,
            73 => Key::F7,
            74 => Key::F8,
            75 => Key::F9,
            76 => Key::F10,
            77 => Key::F11,
            _ => Key::F12,
        }
    }
}

/// Decoding the code of a key gives that key back.
pub proof fn lemma_code_round_trip(k: Key)
    ensures
        Key::spec_from_code(k.code()) == k,
{
}

/// Every code of the catalog is the code of the key it decodes to.
pub proof fn lemma_from_code_inverse(c: u8)
    requires
        c < KEY_COUNT,
    ensures
        Key::spec_from_code(c).code() == c,
{
}

/// No two keys share a code.
pub proof fn lemma_code_injective(a: Key, b: Key)
    ensures
        a.code() == b.code() <==> a == b,
{
    lemma_code_round_trip(a);
    lemma_code_round_trip(b);
}

} // verus!

use vstd::prelude::*;

verus! {

/// The keys libtcod tells apart, in the order of its `TCOD_keycode_t`: the
/// position of a variant is the number libtcod reports for it.
#[derive(Debug, Clone, Copy, PartialEq, Eq, Structural)]
pub enum KeyCode {
    NoKey,
    Escape,
    Backspace,
    Tab,
    Enter,
    Shift,
    Control,
    Alt,
    Pause,
    Capslock,
    Pageup,
    Pagedown,
    End,
    Home,
    Up,
    Left,
    Right,
    Down,
    PrintScreen,
    Insert,
    Delete,
    LeftWin,
    RightWin,
    Apps,
    // The numbers on the alphanum section of the keyboard
    Number0,
    Number1,
    Number2,
    Number3,
    Number4,
    Number5,
    Number6,
    Number7,
    Number8,
    Number9,
    // The numbers on the numeric keypad
    NumPad0,
    NumPad1,
    NumPad2,
    NumPad3,
    NumPad4,
    NumPad5,
    NumPad6,
    NumPad7,
    NumPad8,
    NumPad9,
    NumPadAdd,
    NumPadSubtract,
    NumPadDivide,
    NumPadMultiply,
    NumPadDecimal,
    NumPadEnter,
    F1,
    F2,
    F3,
    F4,
    F5,
    F6,
    F7,
    F8,
    F9,
    F10,
    F11,
    F12,
    NUMLOCK,
    SCROLLLOCK,
    Spacebar,
    Char,
}

/// The number libtcod uses for a key code.
pub open spec fn key_code_value(k: KeyCode) -> u32 {
    match k {
        KeyCode::NoKey => 0,
        KeyCode::Escape => 1,
        KeyCode::Backspace => 2,
        KeyCode::Tab => 3,
        KeyCode::Enter => 4,
        KeyCode::Shift => 5,
        KeyCode::Control => 6,
        KeyCode::Alt => 7,
        KeyCode::Pause => 8,
        KeyCode::Capslock => 9,
        KeyCode::Pageup => 10,
        KeyCode::Pagedown => 11,
        KeyCode::End => 12,
        KeyCode::Home => 13,
        KeyCode::Up => 14,
        KeyCode::Left => 15,
        KeyCode::Right => 16,
        KeyCode::Down => 17,
        KeyCode::PrintScreen => 18,
        KeyCode::Insert => 19,
        KeyCode::Delete => 20,
        KeyCode::LeftWin => 21,
        KeyCode::RightWin => 22,
        KeyCode::Apps => 23,
        KeyCode::Number0 => 24,
        KeyCode::Number1 => 25,
        KeyCode::Number2 => 26,
        KeyCode::Number3 => 27,
        KeyCode::Number4 => 28,
        KeyCode::Number5 => 29,
        KeyCode::Number6 => 30,
        KeyCode::Number7 => 31,
        KeyCode::Number8 => 32,
        KeyCode::Number9 => 33,
        KeyCode::NumPad0 => 34,
        KeyCode::NumPad1 => 35,
        KeyCode::NumPad2 => 36,
        KeyCode::NumPad3 => 37,
        KeyCode::NumPad4 => 38,
        KeyCode::NumPad5 => 39,
        KeyCode::NumPad6 => 40,
        KeyCode::NumPad7 => 41,
        KeyCode::NumPad8 => 42,
        KeyCode::NumPad9 => 43,
        KeyCode::NumPadAdd => 44,
        KeyCode::NumPadSubtract => 45,
        KeyCode::NumPadDivide => 46,
        KeyCode::NumPadMultiply => 47,
        KeyCode::NumPadDecimal => 48,
        KeyCode::NumPadEnter => 49,
        KeyCode::F1 => 50,
        KeyCode::F2 => 51,
        KeyCode::F3 => 52,
        KeyCode::F4 => 53,
        KeyCode::F5 => 54,
        KeyCode::F6 => 55,
        KeyCode::F7 => 56,
        KeyCode::F8 => 57,
        KeyCode::F9 => 58,
        KeyCode::F10 => 59,
        KeyCode::F11 => 60,
        KeyCode::F12 => 61,
        KeyCode::NUMLOCK => 62,
        KeyCode::SCROLLLOCK => 63,
        KeyCode::Spacebar => 64,
        KeyCode::Char => 65,
    }
}

/// The key code that libtcod numbers `v`; meaningful for `v < KEY_CODE_COUNT`.
pub open spec fn key_code_of(v: u32) -> KeyCode {
    match v {
        0 => KeyCode::NoKey,
        1 => KeyCode::Escape,
        2 => KeyCode::Backspace,
        3 => KeyCode::Tab,
        4 => KeyCode::Enter,
        5 => KeyCode::Shift,
        6 => KeyCode::Control,
        7 => KeyCode::Alt,
        8 => KeyCode::Pause,
        9 => KeyCode::Capslock,
        10 => KeyCode::Pageup,
        11 => KeyCode::Pagedown,
        12 => KeyCode::End,
        13 => KeyCode::Home,
        14 => KeyCode::Up,
        15 => KeyCode::Left,
        16 => KeyCode::Right,
        17 => KeyCode::Down,
        18 => KeyCode::PrintScreen,
        19 => KeyCode::Insert,
        20 => KeyCode::Delete,
        21 => KeyCode::LeftWin,
        22 => KeyCode::RightWin,
        23 => KeyCode::Apps,
        24 => KeyCode::Number0,
        25 => KeyCode::Number1,
        26 => KeyCode::Number2,
        27 => KeyCode::Number3,
        28 => KeyCode::Number4,
        29 => KeyCode::Number5,
        30 => KeyCode::Number6,
        31 => KeyCode::Number7,
        32 => KeyCode::Number8,
        33 => KeyCode::Number9,
        34 => KeyCode::NumPad0,
        35 => KeyCode::NumPad1,
        36 => KeyCode::NumPad2,
        37 => KeyCode::NumPad3,
        38 => KeyCode::NumPad4,
        39 => KeyCode::NumPad5,
        40 => KeyCode::NumPad6,
        41 => KeyCode::NumPad7,
        42 => KeyCode::NumPad8,
        43 => KeyCode::NumPad9,
        44 => KeyCode::NumPadAdd,
        45 => KeyCode::NumPadSubtract,
        46 => KeyCode::NumPadDivide,
        47 => KeyCode::NumPadMultiply,
        48 => KeyCode::NumPadDecimal,
        49 => KeyCode::NumPadEnter,
        50 => KeyCode::F1,
        51 => KeyCode::F2,
        52 => KeyCode::F3,
        53 => KeyCode::F4,
        54 => KeyCode::F5,
        55 => KeyCode::F6,
        56 => KeyCode::F7,
        57 => KeyCode::F8,
        58 => KeyCode::F9,
        59 => KeyCode::F10,
        60 => KeyCode::F11,
        61 => KeyCode::F12,
        62 => KeyCode::NUMLOCK,
        63 => KeyCode::SCROLLLOCK,
        64 => KeyCode::Spacebar,
        _ => KeyCode::Char,
    }
}

/// How many key codes libtcod has; the valid numbers are `0..KEY_CODE_COUNT`.
pub const KEY_CODE_COUNT: u32 = 66;

/// The number libtcod uses for "no key" (`TCODK_NONE`).
pub const KEY_CODE_NONE: u32 = 0;

/// The number libtcod uses for a printable character (`TCODK_CHAR`).
pub const KEY_CODE_CHAR: u32 = 65;

impl KeyCode {
    /// The key code that libtcod numbers `code`, if there is one.
    pub fn from_u32(code: u32) -> (r: Option<KeyCode>)
        ensures
            r == (if code < KEY_CODE_COUNT { Some(key_code_of(code)) } else { None::<KeyCode> }),
            r is Some <==> code < 66,
            r matches Some(k) ==> key_code_value(k) == code,
    {
        match code {
            0 => Some(KeyCode::NoKey),
            1 => Some(KeyCode::Escape),
            2 => Some(KeyCode::Backspace),
            3 => Some(KeyCode::Tab),
            4 => Some(KeyCode::Enter),
            5 => Some(KeyCode::Shift),
            6 => Some(KeyCode::Control),
            7 => Some(KeyCode::Alt),
            8 => Some(KeyCode::Pause),
            9 => Some(KeyCode::Capslock),
            10 => Some(KeyCode::Pageup),
            11 => Some(KeyCode::Pagedown),
            12 => Some(KeyCode::End),
            13 => Some(KeyCode::Home),
            14 => Some(KeyCode::Up),
            15 => Some(KeyCode::Left),
            16 => Some(KeyCode::Right),
            17 => Some(KeyCode::Down),
            18 => Some(KeyCode::PrintScreen),
            19 => Some(KeyCode::Insert),
            20 => Some(KeyCode::Delete),
            21 => Some(KeyCode::LeftWin),
            22 => Some(KeyCode::RightWin),
            23 => Some(KeyCode::Apps),
            24 => Some(KeyCode::Number0),
            25 => Some(KeyCode::Number1),
            26 => Some(KeyCode::Number2),
            27 => Some(KeyCode::Number3),
            28 => Some(KeyCode::Number4),
            29 => Some(KeyCode::Number5),
            30 => Some(KeyCode::Number6),
            31 => Some(KeyCode::Number7),
            32 => Some(KeyCode::Number8),
            33 => Some(KeyCode::Number9),
            34 => Some(KeyCode::NumPad0),
            35 => Some(KeyCode::NumPad1),
            36 => Some(KeyCode::NumPad2),
            37 => Some(KeyCode::NumPad3),
            38 => Some(KeyCode::NumPad4),
            39 => Some(KeyCode::NumPad5),
            40 => Some(KeyCode::NumPad6),
            41 => Some(KeyCode::NumPad7),
            42 => Some(KeyCode::NumPad8),
            43 => Some(KeyCode::NumPad9),
            44 => Some(KeyCode::NumPadAdd),
            45 => Some(KeyCode::NumPadSubtract),
            46 => Some(KeyCode::NumPadDivide),
            47 => Some(KeyCode::NumPadMultiply),
            48 => Some(KeyCode::NumPadDecimal),
            49 => Some(KeyCode::NumPadEnter),
            50 => Some(KeyCode::F1),
            51 => Some(KeyCode::F2),
            52 => Some(KeyCode::F3),
            53 => Some(KeyCode::F4),
            54 => Some(KeyCode::F5),
            55 => Some(KeyCode::F6),
            56 => Some(KeyCode::F7),
            57 => Some(KeyCode::F8),
            58 => Some(KeyCode::F9),
            59 => Some(KeyCode::F10),
            60 => Some(KeyCode::F11),
            61 => Some(KeyCode::F12),
            62 => Some(KeyCode::NUMLOCK),
            63 => Some(KeyCode::SCROLLLOCK),
            64 => Some(KeyCode::Spacebar),
            65 => Some(KeyCode::Char),
            _ => None,
        }
    }
}

/// libtcod's key code numbers (`TCOD_keycode_t`): `TCODK_NONE` is 0,
/// `TCODK_ESCAPE` 1, the digit keys 24 to 33, the keypad digits 34 to 43,
/// `TCODK_F1` 50, `TCODK_SPACE` 64 and `TCODK_CHAR` 65.
pub proof fn lemma_key_code_numbers()
    ensures
        key_code_value(KeyCode::NoKey) == 0,
        key_code_value(KeyCode::Escape) == 1,
        key_code_value(KeyCode::Backspace) == 2,
        key_code_value(KeyCode::Tab) == 3,
        key_code_value(KeyCode::Enter) == 4,
        key_code_value(KeyCode::Shift) == 5,
        key_code_value(KeyCode::Control) == 6,
        key_code_value(KeyCode::Alt) == 7,
        key_code_value(KeyCode::Pause) == 8,
        key_code_value(KeyCode::Capslock) == 9,
        key_code_value(KeyCode::Pageup) == 10,
        key_code_value(KeyCode::Pagedown) == 11,
        key_code_value(KeyCode::End) == 12,
        key_code_value(KeyCode::Home) == 13,
        key_code_value(KeyCode::Up) == 14,
        key_code_value(KeyCode::Left) == 15,
        key_code_value(KeyCode::Right) == 16,
        key_code_value(KeyCode::Down) == 17,
        key_code_value(KeyCode::PrintScreen) == 18,
        key_code_value(KeyCode::Insert) == 19,
        key_code_value(KeyCode::Delete) == 20,
        key_code_value(KeyCode::LeftWin) == 21,
        key_code_value(KeyCode::RightWin) == 22,
        key_code_value(KeyCode::Apps) == 23,
        key_code_value(KeyCode::Number0) == 24,
        key_code_value(KeyCode::Number1) == 25,
        key_code_value(KeyCode::Number2) == 26,
        key_code_value(KeyCode::Number3) == 27,
        key_code_value(KeyCode::Number4) == 28,
        key_code_value(KeyCode::Number5) == 29,
        key_code_value(KeyCode::Number6) == 30,
        key_code_value(KeyCode::Number7) == 31,
        key_code_value(KeyCode::Number8) == 32,
        key_code_value(KeyCode::Number9) == 33,
        key_code_value(KeyCode::NumPad0) == 34,
        key_code_value(KeyCode::NumPad1) == 35,
        key_code_value(KeyCode::NumPad2) == 36,
        key_code_value(KeyCode::NumPad3) == 37,
        key_code_value(KeyCode::NumPad4) == 38,
        key_code_value(KeyCode::NumPad5) == 39,
        key_code_value(KeyCode::NumPad6) == 40,
        key_code_value(KeyCode::NumPad7) == 41,
        key_code_value(KeyCode::NumPad8) == 42,
        key_code_value(KeyCode::NumPad9) == 43,
        key_code_value(KeyCode::NumPadAdd) == 44,
        key_code_value(KeyCode::NumPadSubtract) == 45,
        key_code_value(KeyCode::NumPadDivide) == 46,
        key_code_value(KeyCode::NumPadMultiply) == 47,
        key_code_value(KeyCode::NumPadDecimal) == 48,
        key_code_value(KeyCode::NumPadEnter) == 49,
        key_code_value(KeyCode::F1) == 50,
        key_code_value(KeyCode::F2) == 51,
        key_code_value(KeyCode::F3) == 52,
        key_code_value(KeyCode::F4) == 53,
        key_code_value(KeyCode::F5) == 54,
        key_code_value(KeyCode::F6) == 55,
        key_code_value(KeyCode::F7) == 56,
        key_code_value(KeyCode::F8) == 57,
        key_code_value(KeyCode::F9) == 58,
        key_code_value(KeyCode::F10) == 59,
        key_code_value(KeyCode::F11) == 60,
        key_code_value(KeyCode::F12) == 61,
        key_code_value(KeyCode::NUMLOCK) == 62,
        key_code_value(KeyCode::SCROLLLOCK) == 63,
        key_code_value(KeyCode::Spacebar) == 64,
        key_code_value(KeyCode::Char) == 65,
{
}

/// Reading a key code back from its number gives the same key code.
pub proof fn lemma_key_code_round_trip(k: KeyCode)
    ensures
        key_code_value(k) < KEY_CODE_COUNT,
        key_code_of(key_code_value(k)) == k,
{
}

/// Every valid number names a key code, and that key code has this number.
pub proof fn lemma_key_code_value_round_trip(v: u32)
    requires
        v < KEY_CODE_COUNT,
    ensures
        key_code_value(key_code_of(v)) == v,
{
}

/// Different key codes have different numbers.
pub proof fn lemma_key_code_value_injective(k1: KeyCode, k2: KeyCode)
    requires
        key_code_value(k1) == key_code_value(k2),
    ensures
        k1 == k2,
{
    lemma_key_code_round_trip(k1);
    lemma_key_code_round_trip(k2);
}

} // verus!

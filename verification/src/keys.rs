use vstd::prelude::*;

use crate::key_code::key_code_of;
use crate::key_code::key_code_value;
use crate::key_code::lemma_key_code_value_round_trip;
use crate::key_code::KeyCode;
use crate::key_code::KEY_CODE_CHAR;
use crate::key_code::KEY_CODE_COUNT;
use crate::key_code::KEY_CODE_NONE;

verus! {

/// A key: either a printable character or one of the special keys.
#[derive(Debug, Clone, Copy, PartialEq, Eq, Structural)]
pub enum Key {
    Printable(char),
    Special(KeyCode),
}

/// A key event: the key and the state of the modifier keys.
#[derive(Debug, Clone, Copy, PartialEq, Eq, Structural)]
pub struct KeyState {
    pub key: Key,
    pub pressed: bool,
    pub left_alt: bool,
    pub left_ctrl: bool,
    pub right_alt: bool,
    pub right_ctrl: bool,
    pub shift: bool,
}

/// A key event as libtcod reports it (`TCOD_key_t`): the key code number,
/// the character byte, and one byte per flag, where any non-zero byte is true.
#[derive(Debug, Clone, Copy, PartialEq, Eq, Structural)]
pub struct RawKey {
    pub vk: u32,
    pub c: libc::c_char,
    pub pressed: u8,
    pub lalt: u8,
    pub lctrl: u8,
    pub ralt: u8,
    pub rctrl: u8,
    pub shift: u8,
}

/// Which key events a poll for keys reports.
#[derive(Debug, Clone, Copy, PartialEq, Eq, Structural)]
pub enum KeyPressFlag {
    Pressed,
    Released,
    PressedOrReleased,
}

/// The number libtcod uses for each kind of key event to poll for.
pub open spec fn key_press_flag_value(f: KeyPressFlag) -> i32 {
    match f {
        KeyPressFlag::Pressed => 1,
        KeyPressFlag::Released => 2,
        KeyPressFlag::PressedOrReleased => 3,
    }
}

impl KeyPressFlag {
    /// The number handed to libtcod for this flag.
    pub fn code(&self) -> (v: i32)
        ensures
            v == key_press_flag_value(*self),
            *self == KeyPressFlag::Pressed ==> v == 1,
            *self == KeyPressFlag::Released ==> v == 2,
            *self == KeyPressFlag::PressedOrReleased ==> v == 3,
    {
        match self {
            KeyPressFlag::Pressed => 1,
            KeyPressFlag::Released => 2,
            KeyPressFlag::PressedOrReleased => 3,
        }
    }
}

/// Polling for pressed or released keys is polling for both kinds at once;
/// libtcod's `TCOD_KEY_PRESSED` is 1 and `TCOD_KEY_RELEASED` is 2.
pub proof fn lemma_pressed_or_released()
    ensures
        key_press_flag_value(KeyPressFlag::Pressed) == 1,
        key_press_flag_value(KeyPressFlag::Released) == 2,
        key_press_flag_value(KeyPressFlag::PressedOrReleased) == key_press_flag_value(
            KeyPressFlag::Pressed,
        ) | key_press_flag_value(KeyPressFlag::Released),
{
    assert(1i32 | 2i32 == 3i32) by (bit_vector);
}

/// The key libtcod reports: the character byte, read as the character with
/// that code point, for `TCODK_CHAR`, and the key code otherwise.
pub open spec fn raw_key_key(raw: RawKey) -> Key {
    if raw.vk == KEY_CODE_CHAR {
        Key::Printable(((raw.c as u8) as u32) as char)
    } else {
        Key::Special(key_code_of(raw.vk))
    }
}

/// The key event that a raw libtcod key event stands for.
pub open spec fn raw_key_state(raw: RawKey) -> KeyState {
    KeyState {
        key: raw_key_key(raw),
        pressed: raw.pressed != 0,
        left_alt: raw.lalt != 0,
        left_ctrl: raw.lctrl != 0,
        right_alt: raw.ralt != 0,
        right_ctrl: raw.rctrl != 0,
        shift: raw.shift != 0,
    }
}

/// What a poll for keys yields: nothing when libtcod reports no key, else the key event.
pub open spec fn polled_key_state(raw: RawKey) -> Option<KeyState> {
    if raw.vk == KEY_CODE_NONE {
        None
    } else {
        Some(raw_key_state(raw))
    }
}

fn char_of_byte(b: u8) -> (c: char)
    ensures
        c == ((b as u32) as char),
{
    b as char
}

fn decode_key(raw: &RawKey) -> (k: Key)
    requires
        raw.vk < KEY_CODE_COUNT,
    ensures
        k == raw_key_key(*raw),
{
    if raw.vk == KEY_CODE_CHAR {
        Key::Printable(char_of_byte(raw.c as u8))
    } else {
        match KeyCode::from_u32(raw.vk) {
            Some(code) => Key::Special(code),
            None => Key::Special(KeyCode::NoKey),
        }
    }
}

impl KeyState {
    /// The key event of a key that was waited for: libtcod never reports
    /// "no key" here, and a key code it does not know has no key event.
    pub fn from_raw(raw: &RawKey) -> (s: KeyState)
        requires
            raw.vk != KEY_CODE_NONE,
            raw.vk < KEY_CODE_COUNT,
        ensures
            s == raw_key_state(*raw),
            s.pressed == (raw.pressed != 0),
            s.left_alt == (raw.lalt != 0),
            s.left_ctrl == (raw.lctrl != 0),
            s.right_alt == (raw.ralt != 0),
            s.right_ctrl == (raw.rctrl != 0),
            s.shift == (raw.shift != 0),
            raw.vk == KEY_CODE_CHAR ==> s.key == Key::Printable(((raw.c as u8) as u32) as char),
            raw.vk != KEY_CODE_CHAR ==> (s.key matches Key::Special(k) && key_code_value(k) == raw.vk),
    {
        KeyState {
            key: decode_key(raw),
            pressed: raw.pressed != 0,
            left_alt: raw.lalt != 0,
            left_ctrl: raw.lctrl != 0,
            right_alt: raw.ralt != 0,
            right_ctrl: raw.rctrl != 0,
            shift: raw.shift != 0,
        }
    }

    /// The key event of a poll for keys: `None` when libtcod reports no key.
    pub fn from_polled(raw: &RawKey) -> (s: Option<KeyState>)
        requires
            raw.vk < KEY_CODE_COUNT,
        ensures
            s == polled_key_state(*raw),
            s is None <==> raw.vk == KEY_CODE_NONE,
            s matches Some(state) ==> {
                &&& state.pressed == (raw.pressed != 0)
                &&& state.left_alt == (raw.lalt != 0)
                &&& state.left_ctrl == (raw.lctrl != 0)
                &&& state.right_alt == (raw.ralt != 0)
                &&& state.right_ctrl == (raw.rctrl != 0)
                &&& state.shift == (raw.shift != 0)
                &&& raw.vk == KEY_CODE_CHAR ==> state.key == Key::Printable(
                    ((raw.c as u8) as u32) as char,
                )
                &&& raw.vk != KEY_CODE_CHAR ==> (state.key matches Key::Special(k) && key_code_value(
                    k,
                ) == raw.vk)
            },
    {
        if raw.vk == KEY_CODE_NONE {
            return None;
        }
        Some(KeyState::from_raw(raw))
    }
}

/// Each flag of a decoded key event is its own byte of libtcod's event being
/// non-zero: left and right modifiers are never mixed up, and a special key
/// carries the key code that libtcod numbered.
pub proof fn lemma_key_state_fields(raw: RawKey)
    requires
        raw.vk < KEY_CODE_COUNT,
    ensures
        raw_key_state(raw).pressed == (raw.pressed != 0),
        raw_key_state(raw).left_alt == (raw.lalt != 0),
        raw_key_state(raw).left_ctrl == (raw.lctrl != 0),
        raw_key_state(raw).right_alt == (raw.ralt != 0),
        raw_key_state(raw).right_ctrl == (raw.rctrl != 0),
        raw_key_state(raw).shift == (raw.shift != 0),
        raw.vk == KEY_CODE_CHAR ==> raw_key_state(raw).key == Key::Printable(
            ((raw.c as u8) as u32) as char,
        ),
        raw.vk != KEY_CODE_CHAR ==> (raw_key_state(raw).key matches Key::Special(k)
            && key_code_value(k) == raw.vk),
{
    lemma_key_code_value_round_trip(raw.vk);
}

/// A poll that finds a key reports the same key event as waiting for that key.
pub proof fn lemma_poll_agrees_with_wait(raw: RawKey)
    requires
        raw.vk != KEY_CODE_NONE,
    ensures
        polled_key_state(raw) == Some(raw_key_state(raw)),
{
}

/// A key event is a special key exactly when libtcod reports a key code other
/// than `TCODK_CHAR`, and then it carries that key code.
pub proof fn lemma_special_keys(raw: RawKey)
    requires
        raw.vk < KEY_CODE_COUNT,
    ensures
        (raw_key_state(raw).key is Special) <==> raw.vk != KEY_CODE_CHAR,
        raw.vk != KEY_CODE_CHAR ==> raw_key_state(raw).key == Key::Special(key_code_of(raw.vk)),
{
}

} // verus!

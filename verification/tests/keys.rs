use tcod::key_code::KeyCode;
use tcod::Key;
use tcod::KeyPressFlag;
use tcod::KeyState;
use tcod::Printable;
use tcod::RawKey;
use tcod::Special;

fn raw(vk: u32, c: u8) -> RawKey {
    RawKey { vk, c: c as libc::c_char, pressed: 1, lalt: 0, lctrl: 2, ralt: 0, rctrl: 0, shift: 255 }
}

#[test]
fn key_code_numbers() {
    assert_eq!(KeyCode::from_u32(0), Some(KeyCode::NoKey));
    assert_eq!(KeyCode::from_u32(1), Some(KeyCode::Escape));
    assert_eq!(KeyCode::from_u32(24), Some(KeyCode::Number0));
    assert_eq!(KeyCode::from_u32(34), Some(KeyCode::NumPad0));
    assert_eq!(KeyCode::from_u32(50), Some(KeyCode::F1));
    assert_eq!(KeyCode::from_u32(64), Some(KeyCode::Spacebar));
    assert_eq!(KeyCode::from_u32(65), Some(KeyCode::Char));
    assert_eq!(KeyCode::from_u32(66), None);
    assert_eq!(KeyCode::from_u32(u32::MAX), None);
}

#[test]
fn key_code_round_trip() {
    for v in 0u32..66 {
        let k = KeyCode::from_u32(v).unwrap();
        assert_eq!(k as u32, v);
    }
}

#[test]
fn waited_special_key() {
    let s = KeyState::from_raw(&raw(1, b'x'));
    assert_eq!(s.key, Special(KeyCode::Escape));
    assert!(s.pressed);
    assert!(!s.left_alt);
    assert!(s.left_ctrl);
    assert!(!s.right_alt);
    assert!(!s.right_ctrl);
    assert!(s.shift);
}

#[test]
fn waited_printable_key() {
    let s = KeyState::from_raw(&raw(65, b'a'));
    assert_eq!(s.key, Printable('a'));
    let s = KeyState::from_raw(&raw(65, 0xe9));
    assert_eq!(s.key, Key::Printable('\u{e9}'));
}

#[test]
fn polled_no_key() {
    assert!(KeyState::from_polled(&raw(0, b'a')).is_none());
}

#[test]
fn polled_key_agrees_with_waited() {
    for vk in 1u32..66 {
        let r = raw(vk, b'q');
        let polled = KeyState::from_polled(&r).unwrap();
        let waited = KeyState::from_raw(&r);
        assert_eq!(polled, waited);
    }
}

#[test]
fn key_press_flag_codes() {
    assert_eq!(KeyPressFlag::Pressed.code(), 1);
    assert_eq!(KeyPressFlag::Released.code(), 2);
    assert_eq!(KeyPressFlag::PressedOrReleased.code(), 3);
    assert_eq!(
        KeyPressFlag::PressedOrReleased.code(),
        KeyPressFlag::Pressed.code() | KeyPressFlag::Released.code()
    );
}

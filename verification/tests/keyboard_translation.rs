use druid_shell::codes::code_location;
use druid_shell::codes::Code;
use druid_shell::keyboard::KeyEvent;
use druid_shell::keyboard::KeyState;
use druid_shell::keyboard::Location;
use druid_shell::keys::winit_key;
use druid_shell::keys::Key;
use druid_shell::keys::RawKey;
use druid_shell::modifiers::Modifiers;
use druid_shell::vk::translate_virtual;
use druid_shell::vk::vk_char;
use druid_shell::vk::vk_code;
use druid_shell::vk::vk_key;
use druid_shell::vk::vk_location;
use druid_shell::vk::VirtualKey;

#[test]
fn unshifted_and_shifted_characters() {
    assert_eq!(vk_char(VirtualKey::Digit1, false), Some('1'));
    assert_eq!(vk_char(VirtualKey::Digit1, true), Some('!'));
    assert_eq!(vk_char(VirtualKey::Comma, false), Some(','));
    assert_eq!(vk_char(VirtualKey::Comma, true), Some('<'));
    assert_eq!(vk_char(VirtualKey::KeyA, false), Some('a'));
    assert_eq!(vk_char(VirtualKey::KeyA, true), Some('A'));
    assert_eq!(vk_char(VirtualKey::Digit0, true), Some(')'));
    assert_eq!(vk_char(VirtualKey::Slash, true), Some('?'));
    assert_eq!(vk_char(VirtualKey::Escape, false), None);
    assert_eq!(vk_char(VirtualKey::Escape, true), None);
    assert_eq!(vk_key(VirtualKey::Digit1, false), Key::Character("1".to_string()));
    assert_eq!(vk_key(VirtualKey::Digit1, true), Key::Character("!".to_string()));
    assert_eq!(vk_key(VirtualKey::Comma, false), Key::Character(",".to_string()));
    assert_eq!(vk_key(VirtualKey::Comma, true), Key::Character("<".to_string()));
}

#[test]
fn code_is_shift_invariant() {
    let keys = [
        VirtualKey::KeyA,
        VirtualKey::Digit1,
        VirtualKey::Comma,
        VirtualKey::Enter,
        VirtualKey::NumpadEnter,
        VirtualKey::ShiftLeft,
        VirtualKey::F5,
    ];
    for vk in keys {
        let unshifted = translate_virtual(vk, Modifiers::empty(), KeyState::Down, false);
        let shifted = translate_virtual(vk, Modifiers::SHIFT(), KeyState::Down, false);
        assert_eq!(unshifted.code, shifted.code);
        assert_eq!(unshifted.location, shifted.location);
    }
    // The composed key may differ even though the code agrees.
    let a_plain = translate_virtual(VirtualKey::KeyA, Modifiers::empty(), KeyState::Down, false);
    let a_shift = translate_virtual(VirtualKey::KeyA, Modifiers::SHIFT(), KeyState::Down, false);
    assert_eq!(a_plain.code, a_shift.code);
    assert_ne!(a_plain.key, a_shift.key);
}

#[test]
fn numpad_enter_same_key_different_code_and_location() {
    let main = translate_virtual(VirtualKey::Enter, Modifiers::empty(), KeyState::Down, false);
    let pad = translate_virtual(VirtualKey::NumpadEnter, Modifiers::empty(), KeyState::Down, false);
    assert_eq!(main.key, Key::Enter);
    assert_eq!(pad.key, Key::Enter);
    assert_eq!(main.key, pad.key);
    assert_ne!(main.code, pad.code);
    assert_eq!(main.code, Code::Enter);
    assert_eq!(pad.code, Code::NumpadEnter);
    assert_eq!(main.location, Location::Standard);
    assert_eq!(pad.location, Location::Numpad);
}

#[test]
fn translation_is_idempotent() {
    let once = translate_virtual(VirtualKey::Digit5, Modifiers::SHIFT(), KeyState::Down, true);
    let twice = translate_virtual(VirtualKey::Digit5, Modifiers::SHIFT(), KeyState::Down, true);
    assert_eq!(once, twice);
    let k1 = winit_key(RawKey::BrowserBack);
    let k2 = winit_key(RawKey::BrowserBack);
    assert_eq!(k1, k2);
    let c1 = winit_key(RawKey::Character("ü".to_string()));
    let c2 = winit_key(RawKey::Character("ü".to_string()));
    assert_eq!(c1, c2);
}

#[test]
fn shifted_a_full_event() {
    let e = translate_virtual(VirtualKey::KeyA, Modifiers::SHIFT(), KeyState::Down, false);
    assert_eq!(e.key, Key::Character("A".to_string()));
    assert_eq!(e.code, Code::KeyA);
    assert_eq!(e.location, Location::Standard);
    assert_eq!(e.state, KeyState::Down);
    assert!(e.mods.shift());
    assert!(!e.repeat);
    assert!(!e.is_composing);
}

#[test]
fn logical_key_renames() {
    assert_eq!(winit_key(RawKey::Enter), Key::Enter);
    assert_eq!(winit_key(RawKey::Tab), Key::Tab);
    assert_eq!(winit_key(RawKey::ArrowLeft), Key::ArrowLeft);
    assert_eq!(winit_key(RawKey::Escape), Key::Escape);
    assert_eq!(winit_key(RawKey::CapsLock), Key::CapsLock);
    assert_eq!(winit_key(RawKey::MediaPlayPause), Key::MediaPlayPause);
    assert_eq!(winit_key(RawKey::BrowserFavorites), Key::BrowserFavorites);
    assert_eq!(winit_key(RawKey::TVSatelliteToggle), Key::TVSatelliteToggle);
    assert_eq!(winit_key(RawKey::F12), Key::F12);
    assert_eq!(winit_key(RawKey::Hiragana), Key::Hiragana);
}

#[test]
fn space_becomes_one_character_text() {
    assert_eq!(winit_key(RawKey::Space), Key::Character(" ".to_string()));
}

#[test]
fn composed_text_passes_through() {
    assert_eq!(
        winit_key(RawKey::Character("é".to_string())),
        Key::Character("é".to_string())
    );
    assert_eq!(
        winit_key(RawKey::Character("abc".to_string())),
        Key::Character("abc".to_string())
    );
}

#[test]
fn unmapped_keys_degrade_to_unidentified() {
    assert_eq!(winit_key(RawKey::F13), Key::Unidentified);
    assert_eq!(winit_key(RawKey::F24), Key::Unidentified);
    assert_eq!(winit_key(RawKey::F35), Key::Unidentified);
    assert_eq!(winit_key(RawKey::Unidentified), Key::Unidentified);
    assert_eq!(winit_key(RawKey::Dead), Key::Dead);
}

#[test]
fn virtual_key_tables() {
    assert_eq!(vk_code(VirtualKey::KeyA), Code::KeyA);
    assert_eq!(vk_code(VirtualKey::Digit1), Code::Digit1);
    assert_eq!(vk_code(VirtualKey::Numpad7), Code::Numpad7);
    assert_eq!(vk_key(VirtualKey::ShiftLeft, false), Key::Shift);
    assert_eq!(vk_key(VirtualKey::ShiftRight, false), Key::Shift);
    assert_eq!(vk_key(VirtualKey::MetaRight, false), Key::Meta);
    assert_ne!(vk_code(VirtualKey::ShiftLeft), vk_code(VirtualKey::ShiftRight));
    assert_eq!(vk_location(VirtualKey::ShiftLeft), Location::Left);
    assert_eq!(vk_location(VirtualKey::ShiftRight), Location::Right);
    assert_eq!(vk_location(VirtualKey::Numpad1), Location::Numpad);
    assert_eq!(vk_location(VirtualKey::KeyQ), Location::Standard);
    assert_eq!(vk_key(VirtualKey::F7, true), Key::F7);
    assert_eq!(vk_key(VirtualKey::Numpad3, true), Key::Character("3".to_string()));
}

#[test]
fn location_from_physical_code() {
    assert_eq!(code_location(Code::NumpadEnter), Location::Numpad);
    assert_eq!(code_location(Code::Numpad0), Location::Numpad);
    assert_eq!(code_location(Code::ShiftLeft), Location::Left);
    assert_eq!(code_location(Code::AltRight), Location::Right);
    assert_eq!(code_location(Code::KeyA), Location::Standard);
    assert_eq!(code_location(Code::Enter), Location::Standard);
}

#[test]
fn key_event_for_test() {
    let e = KeyEvent::for_test(Modifiers::SHIFT(), "A");
    assert_eq!(e.key, Key::Character("A".to_string()));
    assert_eq!(e.code, Code::Unidentified);
    assert_eq!(e.location, Location::Standard);
    assert_eq!(e.state, KeyState::Down);
    assert!(e.mods.shift());
    let f = KeyEvent::for_test(Modifiers::empty(), Key::Escape);
    assert_eq!(f.key, Key::Escape);
    assert!(f.mods.is_empty());
}

#[test]
fn key_event_default() {
    let e = KeyEvent::default();
    assert_eq!(e.key, Key::Unidentified);
    assert_eq!(e.code, Code::Unidentified);
    assert_eq!(e.state, KeyState::Down);
    assert!(e.mods.is_empty());
    assert!(!e.repeat);
    assert!(!e.is_composing);
}

//! The virtual-key-code translation style: a backend that reports only
//! an abstract key identifier, for which the translator itself composes
//! the shift-dependent character.

use vstd::prelude::*;
use crate::codes::Code;
use crate::keyboard::KeyEvent;
use crate::keyboard::KeyState;
use crate::keyboard::Location;
use crate::keys::char_key;
use crate::keys::is_character;
use crate::keys::Key;
use crate::modifiers::Modifiers;
use crate::modifiers::SHIFT_BIT;

verus! {

/// An abstract virtual key code, as reported by a backend that exposes
/// no composed text: a closed enumeration of key identifiers from which
/// both the logical [`Key`] (shift-dependent for printable keys) and
/// the physical [`Code`] (always shift-independent) are derived.
#[derive(Clone, Copy, Debug, PartialEq, Eq, Hash, Structural)]
pub enum VirtualKey {
    KeyA,
    KeyB,
    KeyC,
    KeyD,
    KeyE,
    KeyF,
    KeyG,
    KeyH,
    KeyI,
    KeyJ,
    KeyK,
    KeyL,
    KeyM,
    KeyN,
    KeyO,
    KeyP,
    KeyQ,
    KeyR,
    KeyS,
    KeyT,
    KeyU,
    KeyV,
    KeyW,
    KeyX,
    KeyY,
    KeyZ,
    Digit0,
    Digit1,
    Digit2,
    Digit3,
    Digit4,
    Digit5,
    Digit6,
    Digit7,
    Digit8,
    Digit9,
    Minus,
    Equal,
    BracketLeft,
    BracketRight,
    Backslash,
    Semicolon,
    Quote,
    Backquote,
    Comma,
    Period,
    Slash,
    Space,
    Enter,
    Tab,
    Escape,
    Backspace,
    Insert,
    Delete,
    Home,
    End,
    PageUp,
    PageDown,
    ArrowUp,
    ArrowDown,
    ArrowLeft,
    ArrowRight,
    F1,
    F2,
    F3,
    F4,
    F5,
    F6,
    F7,
    F8,
    F9,
    F10,
    F11,
    F12,
    NumLock,
    CapsLock,
    ScrollLock,
    PrintScreen,
    Pause,
    ContextMenu,
    ShiftLeft,
    ShiftRight,
    ControlLeft,
    ControlRight,
    AltLeft,
    AltRight,
    MetaLeft,
    MetaRight,
    Numpad0,
    Numpad1,
    Numpad2,
    Numpad3,
    Numpad4,
    Numpad5,
    Numpad6,
    Numpad7,
    Numpad8,
    Numpad9,
    NumpadAdd,
    NumpadSubtract,
    NumpadMultiply,
    NumpadDivide,
    NumpadDecimal,
    NumpadEnter,
}

/// The secondary character-composition table: for each printable
/// virtual key its unshifted and shifted character, and `None` for the
/// named non-printing keys.
pub open spec fn vk_pair(vk: VirtualKey) -> Option<(char, char)> {
    match vk {
        VirtualKey::KeyA => Some(('a', 'A')),
        VirtualKey::KeyB => Some(('b', 'B')),
        VirtualKey::KeyC => Some(('c', 'C')),
        VirtualKey::KeyD => Some(('d', 'D')),
        VirtualKey::KeyE => Some(('e', 'E')),
        VirtualKey::KeyF => Some(('f', 'F')),
        VirtualKey::KeyG => Some(('g', 'G')),
        VirtualKey::KeyH => Some(('h', 'H')),
        VirtualKey::KeyI => Some(('i', 'I')),
        VirtualKey::KeyJ => Some(('j', 'J')),
        VirtualKey::KeyK => Some(('k', 'K')),
        VirtualKey::KeyL => Some(('l', 'L')),
        VirtualKey::KeyM => Some(('m', 'M')),
        VirtualKey::KeyN => Some(('n', 'N')),
        VirtualKey::KeyO => Some(('o', 'O')),
        VirtualKey::KeyP => Some(('p', 'P')),
        VirtualKey::KeyQ => Some(('q', 'Q')),
        VirtualKey::KeyR => Some(('r', 'R')),
        VirtualKey::KeyS => Some(('s', 'S')),
        VirtualKey::KeyT => Some(('t', 'T')),
        VirtualKey::KeyU => Some(('u', 'U')),
        VirtualKey::KeyV => Some(('v', 'V')),
        VirtualKey::KeyW => Some(('w', 'W')),
        VirtualKey::KeyX => Some(('x', 'X')),
        VirtualKey::KeyY => Some(('y', 'Y')),
        VirtualKey::KeyZ => Some(('z', 'Z')),
        VirtualKey::Digit0 => Some(('0', ')')),
        VirtualKey::Digit1 => Some(('1', '!')),
        VirtualKey::Digit2 => Some(('2', '@')),
        VirtualKey::Digit3 => Some(('3', '#')),
        VirtualKey::Digit4 => Some(('4', '$')),
        VirtualKey::Digit5 => Some(('5', '%')),
        VirtualKey::Digit6 => Some(('6', '^')),
        VirtualKey::Digit7 => Some(('7', '&')),
        VirtualKey::Digit8 => Some(('8', '*')),
        VirtualKey::Digit9 => Some(('9', '(')),
        VirtualKey::Minus => Some(('-', '_')),
        VirtualKey::Equal => Some(('=', '+')),
        VirtualKey::BracketLeft => Some(('[', '{')),
        VirtualKey::BracketRight => Some((']', '}')),
        VirtualKey::Backslash => Some(('\\', '|')),
        VirtualKey::Semicolon => Some((';', ':')),
        VirtualKey::Quote => Some(('\'', '"')),
        VirtualKey::Backquote => Some(('`', '~')),
        VirtualKey::Comma => Some((',', '<')),
        VirtualKey::Period => Some(('.', '>')),
        VirtualKey::Slash => Some(('/', '?')),
        VirtualKey::Space => Some((' ', ' ')),
        VirtualKey::Enter => None,
        VirtualKey::Tab => None,
        VirtualKey::Escape => None,
        VirtualKey::Backspace => None,
        VirtualKey::Insert => None,
        VirtualKey::Delete => None,
        VirtualKey::Home => None,
        VirtualKey::End => None,
        VirtualKey::PageUp => None,
        VirtualKey::PageDown => None,
        VirtualKey::ArrowUp => None,
        VirtualKey::ArrowDown => None,
        VirtualKey::ArrowLeft => None,
        VirtualKey::ArrowRight => None,
        VirtualKey::F1 => None,
        VirtualKey::F2 => None,
        VirtualKey::F3 => None,
        VirtualKey::F4 => None,
        VirtualKey::F5 => None,
        VirtualKey::F6 => None,
        VirtualKey::F7 => None,
        VirtualKey::F8 => None,
        VirtualKey::F9 => None,
        VirtualKey::F10 => None,
        VirtualKey::F11 => None,
        VirtualKey::F12 => None,
        VirtualKey::NumLock => None,
        VirtualKey::CapsLock => None,
        VirtualKey::ScrollLock => None,
        VirtualKey::PrintScreen => None,
        VirtualKey::Pause => None,
        VirtualKey::ContextMenu => None,
        VirtualKey::ShiftLeft => None,
        VirtualKey::ShiftRight => None,
        VirtualKey::ControlLeft => None,
        VirtualKey::ControlRight => None,
        VirtualKey::AltLeft => None,
        VirtualKey::AltRight => None,
        VirtualKey::MetaLeft => None,
        VirtualKey::MetaRight => None,
        VirtualKey::Numpad0 => Some(('0', '0')),
        VirtualKey::Numpad1 => Some(('1', '1')),
        VirtualKey::Numpad2 => Some(('2', '2')),
        VirtualKey::Numpad3 => Some(('3', '3')),
        VirtualKey::Numpad4 => Some(('4', '4')),
        VirtualKey::Numpad5 => Some(('5', '5')),
        VirtualKey::Numpad6 => Some(('6', '6')),
        VirtualKey::Numpad7 => Some(('7', '7')),
        VirtualKey::Numpad8 => Some(('8', '8')),
        VirtualKey::Numpad9 => Some(('9', '9')),
        VirtualKey::NumpadAdd => Some(('+', '+')),
        VirtualKey::NumpadSubtract => Some(('-', '-')),
        VirtualKey::NumpadMultiply => Some(('*', '*')),
        VirtualKey::NumpadDivide => Some(('/', '/')),
        VirtualKey::NumpadDecimal => Some(('.', '.')),
        VirtualKey::NumpadEnter => None,
    }
}

/// The character a printable virtual key composes under the given shift
/// state: the unshifted half of its pair without shift, the shifted
/// half with it.
pub open spec fn vk_char_of(vk: VirtualKey, shift: bool) -> Option<char> {
    match vk_pair(vk) {
        Some(p) => Some(if shift { p.1 } else { p.0 }),
        None => None,
    }
}

/// The named key a non-printing virtual key means. Printable keys do
/// not reach this table; their meaning is their composed character.
pub open spec fn vk_named_key(vk: VirtualKey) -> Key {
    match vk {
        VirtualKey::KeyA => Key::Unidentified,
        VirtualKey::KeyB => Key::Unidentified,
        VirtualKey::KeyC => Key::Unidentified,
        VirtualKey::KeyD => Key::Unidentified,
        VirtualKey::KeyE => Key::Unidentified,
        VirtualKey::KeyF => Key::Unidentified,
        VirtualKey::KeyG => Key::Unidentified,
        VirtualKey::KeyH => Key::Unidentified,
        VirtualKey::KeyI => Key::Unidentified,
        VirtualKey::KeyJ => Key::Unidentified,
        VirtualKey::KeyK => Key::Unidentified,
        VirtualKey::KeyL => Key::Unidentified,
        VirtualKey::KeyM => Key::Unidentified,
        VirtualKey::KeyN => Key::Unidentified,
        VirtualKey::KeyO => Key::Unidentified,
        VirtualKey::KeyP => Key::Unidentified,
        VirtualKey::KeyQ => Key::Unidentified,
        VirtualKey::KeyR => Key::Unidentified,
        VirtualKey::KeyS => Key::Unidentified,
        VirtualKey::KeyT => Key::Unidentified,
        VirtualKey::KeyU => Key::Unidentified,
        VirtualKey::KeyV => Key::Unidentified,
        VirtualKey::KeyW => Key::Unidentified,
        VirtualKey::KeyX => Key::Unidentified,
        VirtualKey::KeyY => Key::Unidentified,
        VirtualKey::KeyZ => Key::Unidentified,
        VirtualKey::Digit0 => Key::Unidentified,
        VirtualKey::Digit1 => Key::Unidentified,
        VirtualKey::Digit2 => Key::Unidentified,
        VirtualKey::Digit3 => Key::Unidentified,
        VirtualKey::Digit4 => Key::Unidentified,
        VirtualKey::Digit5 => Key::Unidentified,
        VirtualKey::Digit6 => Key::Unidentified,
        VirtualKey::Digit7 => Key::Unidentified,
        VirtualKey::Digit8 => Key::Unidentified,
        VirtualKey::Digit9 => Key::Unidentified,
        VirtualKey::Minus => Key::Unidentified,
        VirtualKey::Equal => Key::Unidentified,
        VirtualKey::BracketLeft => Key::Unidentified,
        VirtualKey::BracketRight => Key::Unidentified,
        VirtualKey::Backslash => Key::Unidentified,
        VirtualKey::Semicolon => Key::Unidentified,
        VirtualKey::Quote => Key::Unidentified,
        VirtualKey::Backquote => Key::Unidentified,
        VirtualKey::Comma => Key::Unidentified,
        VirtualKey::Period => Key::Unidentified,
        VirtualKey::Slash => Key::Unidentified,
        VirtualKey::Space => Key::Unidentified,
        VirtualKey::Enter => Key::Enter,
        VirtualKey::Tab => Key::Tab,
        VirtualKey::Escape => Key::Escape,
        VirtualKey::Backspace => Key::Backspace,
        VirtualKey::Insert => Key::Insert,
        VirtualKey::Delete => Key::Delete,
        VirtualKey::Home => Key::Home,
        VirtualKey::End => Key::End,
        VirtualKey::PageUp => Key::PageUp,
        VirtualKey::PageDown => Key::PageDown,
        VirtualKey::ArrowUp => Key::ArrowUp,
        VirtualKey::ArrowDown => Key::ArrowDown,
        VirtualKey::ArrowLeft => Key::ArrowLeft,
        VirtualKey::ArrowRight => Key::ArrowRight,
        VirtualKey::F1 => Key::F1,
        VirtualKey::F2 => Key::F2,
        VirtualKey::F3 => Key::F3,
        VirtualKey::F4 => Key::F4,
        VirtualKey::F5 => Key::F5,
        VirtualKey::F6 => Key::F6,
        VirtualKey::F7 => Key::F7,
        VirtualKey::F8 => Key::F8,
        VirtualKey::F9 => Key::F9,
        VirtualKey::F10 => Key::F10,
        VirtualKey::F11 => Key::F11,
        VirtualKey::F12 => Key::F12,
        VirtualKey::NumLock => Key::NumLock,
        VirtualKey::CapsLock => Key::CapsLock,
        VirtualKey::ScrollLock => Key::ScrollLock,
        VirtualKey::PrintScreen => Key::PrintScreen,
        VirtualKey::Pause => Key::Pause,
        VirtualKey::ContextMenu => Key::ContextMenu,
        VirtualKey::ShiftLeft => Key::Shift,
        VirtualKey::ShiftRight => Key::Shift,
        VirtualKey::ControlLeft => Key::Control,
        VirtualKey::ControlRight => Key::Control,
        VirtualKey::AltLeft => Key::Alt,
        VirtualKey::AltRight => Key::Alt,
        VirtualKey::MetaLeft => Key::Meta,
        VirtualKey::MetaRight => Key::Meta,
        VirtualKey::Numpad0 => Key::Unidentified,
        VirtualKey::Numpad1 => Key::Unidentified,
        VirtualKey::Numpad2 => Key::Unidentified,
        VirtualKey::Numpad3 => Key::Unidentified,
        VirtualKey::Numpad4 => Key::Unidentified,
        VirtualKey::Numpad5 => Key::Unidentified,
        VirtualKey::Numpad6 => Key::Unidentified,
        VirtualKey::Numpad7 => Key::Unidentified,
        VirtualKey::Numpad8 => Key::Unidentified,
        VirtualKey::Numpad9 => Key::Unidentified,
        VirtualKey::NumpadAdd => Key::Unidentified,
        VirtualKey::NumpadSubtract => Key::Unidentified,
        VirtualKey::NumpadMultiply => Key::Unidentified,
        VirtualKey::NumpadDivide => Key::Unidentified,
        VirtualKey::NumpadDecimal => Key::Unidentified,
        VirtualKey::NumpadEnter => Key::Enter,
    }
}

/// The physical position of a virtual key, independent of any modifier.
pub open spec fn vk_code_of(vk: VirtualKey) -> Code {
    match vk {
        VirtualKey::KeyA => Code::KeyA,
        VirtualKey::KeyB => Code::KeyB,
        VirtualKey::KeyC => Code::KeyC,
        VirtualKey::KeyD => Code::KeyD,
        VirtualKey::KeyE => Code::KeyE,
        VirtualKey::KeyF => Code::KeyF,
        VirtualKey::KeyG => Code::KeyG,
        VirtualKey::KeyH => Code::KeyH,
        VirtualKey::KeyI => Code::KeyI,
        VirtualKey::KeyJ => Code::KeyJ,
        VirtualKey::KeyK => Code::KeyK,
        VirtualKey::KeyL => Code::KeyL,
        VirtualKey::KeyM => Code::KeyM,
        VirtualKey::KeyN => Code::KeyN,
        VirtualKey::KeyO => Code::KeyO,
        VirtualKey::KeyP => Code::KeyP,
        VirtualKey::KeyQ => Code::KeyQ,
        VirtualKey::KeyR => Code::KeyR,
        VirtualKey::KeyS => Code::KeyS,
        VirtualKey::KeyT => Code::KeyT,
        VirtualKey::KeyU => Code::KeyU,
        VirtualKey::KeyV => Code::KeyV,
        VirtualKey::KeyW => Code::KeyW,
        VirtualKey::KeyX => Code::KeyX,
        VirtualKey::KeyY => Code::KeyY,
        VirtualKey::KeyZ => Code::KeyZ,
        VirtualKey::Digit0 => Code::Digit0,
        VirtualKey::Digit1 => Code::Digit1,
        VirtualKey::Digit2 => Code::Digit2,
        VirtualKey::Digit3 => Code::Digit3,
        VirtualKey::Digit4 => Code::Digit4,
        VirtualKey::Digit5 => Code::Digit5,
        VirtualKey::Digit6 => Code::Digit6,
        VirtualKey::Digit7 => Code::Digit7,
        VirtualKey::Digit8 => Code::Digit8,
        VirtualKey::Digit9 => Code::Digit9,
        VirtualKey::Minus => Code::Minus,
        VirtualKey::Equal => Code::Equal,
        VirtualKey::BracketLeft => Code::BracketLeft,
        VirtualKey::BracketRight => Code::BracketRight,
        VirtualKey::Backslash => Code::Backslash,
        VirtualKey::Semicolon => Code::Semicolon,
        VirtualKey::Quote => Code::Quote,
        VirtualKey::Backquote => Code::Backquote,
        VirtualKey::Comma => Code::Comma,
        VirtualKey::Period => Code::Period,
        VirtualKey::Slash => Code::Slash,
        VirtualKey::Space => Code::Space,
        VirtualKey::Enter => Code::Enter,
        VirtualKey::Tab => Code::Tab,
        VirtualKey::Escape => Code::Escape,
        VirtualKey::Backspace => Code::Backspace,
        VirtualKey::Insert => Code::Insert,
        VirtualKey::Delete => Code::Delete,
        VirtualKey::Home => Code::Home,
        VirtualKey::End => Code::End,
        VirtualKey::PageUp => Code::PageUp,
        VirtualKey::PageDown => Code::PageDown,
        VirtualKey::ArrowUp => Code::ArrowUp,
        VirtualKey::ArrowDown => Code::ArrowDown,
        VirtualKey::ArrowLeft => Code::ArrowLeft,
        VirtualKey::ArrowRight => Code::ArrowRight,
        VirtualKey::F1 => Code::F1,
        VirtualKey::F2 => Code::F2,
        VirtualKey::F3 => Code::F3,
        VirtualKey::F4 => Code::F4,
        VirtualKey::F5 => Code::F5,
        VirtualKey::F6 => Code::F6,
        VirtualKey::F7 => Code::F7,
        VirtualKey::F8 => Code::F8,
        VirtualKey::F9 => Code::F9,
        VirtualKey::F10 => Code::F10,
        VirtualKey::F11 => Code::F11,
        VirtualKey::F12 => Code::F12,
        VirtualKey::NumLock => Code::NumLock,
        VirtualKey::CapsLock => Code::CapsLock,
        VirtualKey::ScrollLock => Code::ScrollLock,
        VirtualKey::PrintScreen => Code::PrintScreen,
        VirtualKey::Pause => Code::Pause,
        VirtualKey::ContextMenu => Code::ContextMenu,
        VirtualKey::ShiftLeft => Code::ShiftLeft,
        VirtualKey::ShiftRight => Code::ShiftRight,
        VirtualKey::ControlLeft => Code::ControlLeft,
        VirtualKey::ControlRight => Code::ControlRight,
        VirtualKey::AltLeft => Code::AltLeft,
        VirtualKey::AltRight => Code::AltRight,
        VirtualKey::MetaLeft => Code::MetaLeft,
        VirtualKey::MetaRight => Code::MetaRight,
        VirtualKey::Numpad0 => Code::Numpad0,
        VirtualKey::Numpad1 => Code::Numpad1,
        VirtualKey::Numpad2 => Code::Numpad2,
        VirtualKey::Numpad3 => Code::Numpad3,
        VirtualKey::Numpad4 => Code::Numpad4,
        VirtualKey::Numpad5 => Code::Numpad5,
        VirtualKey::Numpad6 => Code::Numpad6,
        VirtualKey::Numpad7 => Code::Numpad7,
        VirtualKey::Numpad8 => Code::Numpad8,
        VirtualKey::Numpad9 => Code::Numpad9,
        VirtualKey::NumpadAdd => Code::NumpadAdd,
        VirtualKey::NumpadSubtract => Code::NumpadSubtract,
        VirtualKey::NumpadMultiply => Code::NumpadMultiply,
        VirtualKey::NumpadDivide => Code::NumpadDivide,
        VirtualKey::NumpadDecimal => Code::NumpadDecimal,
        VirtualKey::NumpadEnter => Code::NumpadEnter,
    }
}

/// The location of a virtual key: `Left`/`Right` for the paired
/// modifier keys, `Numpad` for the numeric pad, `Standard` otherwise.
pub open spec fn vk_location_of(vk: VirtualKey) -> Location {
    match vk {
        VirtualKey::KeyA => Location::Standard,
        VirtualKey::KeyB => Location::Standard,
        VirtualKey::KeyC => Location::Standard,
        VirtualKey::KeyD => Location::Standard,
        VirtualKey::KeyE => Location::Standard,
        VirtualKey::KeyF => Location::Standard,
        VirtualKey::KeyG => Location::Standard,
        VirtualKey::KeyH => Location::Standard,
        VirtualKey::KeyI => Location::Standard,
        VirtualKey::KeyJ => Location::Standard,
        VirtualKey::KeyK => Location::Standard,
        VirtualKey::KeyL => Location::Standard,
        VirtualKey::KeyM => Location::Standard,
        VirtualKey::KeyN => Location::Standard,
        VirtualKey::KeyO => Location::Standard,
        VirtualKey::KeyP => Location::Standard,
        VirtualKey::KeyQ => Location::Standard,
        VirtualKey::KeyR => Location::Standard,
        VirtualKey::KeyS => Location::Standard,
        VirtualKey::KeyT => Location::Standard,
        VirtualKey::KeyU => Location::Standard,
        VirtualKey::KeyV => Location::Standard,
        VirtualKey::KeyW => Location::Standard,
        VirtualKey::KeyX => Location::Standard,
        VirtualKey::KeyY => Location::Standard,
        VirtualKey::KeyZ => Location::Standard,
        VirtualKey::Digit0 => Location::Standard,
        VirtualKey::Digit1 => Location::Standard,
        VirtualKey::Digit2 => Location::Standard,
        VirtualKey::Digit3 => Location::Standard,
        VirtualKey::Digit4 => Location::Standard,
        VirtualKey::Digit5 => Location::Standard,
        VirtualKey::Digit6 => Location::Standard,
        VirtualKey::Digit7 => Location::Standard,
        VirtualKey::Digit8 => Location::Standard,
        VirtualKey::Digit9 => Location::Standard,
        VirtualKey::Minus => Location::Standard,
        VirtualKey::Equal => Location::Standard,
        VirtualKey::BracketLeft => Location::Standard,
        VirtualKey::BracketRight => Location::Standard,
        VirtualKey::Backslash => Location::Standard,
        VirtualKey::Semicolon => Location::Standard,
        VirtualKey::Quote => Location::Standard,
        VirtualKey::Backquote => Location::Standard,
        VirtualKey::Comma => Location::Standard,
        VirtualKey::Period => Location::Standard,
        VirtualKey::Slash => Location::Standard,
        VirtualKey::Space => Location::Standard,
        VirtualKey::Enter => Location::Standard,
        VirtualKey::Tab => Location::Standard,
        VirtualKey::Escape => Location::Standard,
        VirtualKey::Backspace => Location::Standard,
        VirtualKey::Insert => Location::Standard,
        VirtualKey::Delete => Location::Standard,
        VirtualKey::Home => Location::Standard,
        VirtualKey::End => Location::Standard,
        VirtualKey::PageUp => Location::Standard,
        VirtualKey::PageDown => Location::Standard,
        VirtualKey::ArrowUp => Location::Standard,
        VirtualKey::ArrowDown => Location::Standard,
        VirtualKey::ArrowLeft => Location::Standard,
        VirtualKey::ArrowRight => Location::Standard,
        VirtualKey::F1 => Location::Standard,
        VirtualKey::F2 => Location::Standard,
        VirtualKey::F3 => Location::Standard,
        VirtualKey::F4 => Location::Standard,
        VirtualKey::F5 => Location::Standard,
        VirtualKey::F6 => Location::Standard,
        VirtualKey::F7 => Location::Standard,
        VirtualKey::F8 => Location::Standard,
        VirtualKey::F9 => Location::Standard,
        VirtualKey::F10 => Location::Standard,
        VirtualKey::F11 => Location::Standard,
        VirtualKey::F12 => Location::Standard,
        VirtualKey::NumLock => Location::Standard,
        VirtualKey::CapsLock => Location::Standard,
        VirtualKey::ScrollLock => Location::Standard,
        VirtualKey::PrintScreen => Location::Standard,
        VirtualKey::Pause => Location::Standard,
        VirtualKey::ContextMenu => Location::Standard,
        VirtualKey::ShiftLeft => Location::Left,
        VirtualKey::ShiftRight => Location::Right,
        VirtualKey::ControlLeft => Location::Left,
        VirtualKey::ControlRight => Location::Right,
        VirtualKey::AltLeft => Location::Left,
        VirtualKey::AltRight => Location::Right,
        VirtualKey::MetaLeft => Location::Left,
        VirtualKey::MetaRight => Location::Right,
        VirtualKey::Numpad0 => Location::Numpad,
        VirtualKey::Numpad1 => Location::Numpad,
        VirtualKey::Numpad2 => Location::Numpad,
        VirtualKey::Numpad3 => Location::Numpad,
        VirtualKey::Numpad4 => Location::Numpad,
        VirtualKey::Numpad5 => Location::Numpad,
        VirtualKey::Numpad6 => Location::Numpad,
        VirtualKey::Numpad7 => Location::Numpad,
        VirtualKey::Numpad8 => Location::Numpad,
        VirtualKey::Numpad9 => Location::Numpad,
        VirtualKey::NumpadAdd => Location::Numpad,
        VirtualKey::NumpadSubtract => Location::Numpad,
        VirtualKey::NumpadMultiply => Location::Numpad,
        VirtualKey::NumpadDivide => Location::Numpad,
        VirtualKey::NumpadDecimal => Location::Numpad,
        VirtualKey::NumpadEnter => Location::Numpad,
    }
}

/// The logical meaning of a virtual key under the given shift state:
/// the composed character for printable keys, the named key otherwise.
pub open spec fn vk_key_corresponds(vk: VirtualKey, shift: bool, k: Key) -> bool {
    match vk_char_of(vk, shift) {
        Some(c) => is_character(k, c),
        None => k == vk_named_key(vk),
    }
}

/// Compose the character for a printable virtual key: the unshifted
/// character without shift, the documented shifted symbol with it, and
/// `None` for non-printing keys.
pub fn vk_char(vk: VirtualKey, shift: bool) -> (r: Option<char>)
    ensures
        r == vk_char_of(vk, shift),
{
    match vk_pair_exec(vk) {
        Some(p) => Some(if shift { p.1 } else { p.0 }),
        None => None,
    }
}

/// The character-composition table, executable form.
fn vk_pair_exec(vk: VirtualKey) -> (r: Option<(char, char)>)
    ensures
        r == vk_pair(vk),
{
    match vk {
        VirtualKey::KeyA => Some(('a', 'A')),
        VirtualKey::KeyB => Some(('b', 'B')),
        VirtualKey::KeyC => Some(('c', 'C')),
        VirtualKey::KeyD => Some(('d', 'D')),
        VirtualKey::KeyE => Some(('e', 'E')),
        VirtualKey::KeyF => Some(('f', 'F')),
        VirtualKey::KeyG => Some(('g', 'G')),
        VirtualKey::KeyH => Some(('h', 'H')),
        VirtualKey::KeyI => Some(('i', 'I')),
        VirtualKey::KeyJ => Some(('j', 'J')),
        VirtualKey::KeyK => Some(('k', 'K')),
        VirtualKey::KeyL => Some(('l', 'L')),
        VirtualKey::KeyM => Some(('m', 'M')),
        VirtualKey::KeyN => Some(('n', 'N')),
        VirtualKey::KeyO => Some(('o', 'O')),
        VirtualKey::KeyP => Some(('p', 'P')),
        VirtualKey::KeyQ => Some(('q', 'Q')),
        VirtualKey::KeyR => Some(('r', 'R')),
        VirtualKey::KeyS => Some(('s', 'S')),
        VirtualKey::KeyT => Some(('t', 'T')),
        VirtualKey::KeyU => Some(('u', 'U')),
        VirtualKey::KeyV => Some(('v', 'V')),
        VirtualKey::KeyW => Some(('w', 'W')),
        VirtualKey::KeyX => Some(('x', 'X')),
        VirtualKey::KeyY => Some(('y', 'Y')),
        VirtualKey::KeyZ => Some(('z', 'Z')),
        VirtualKey::Digit0 => Some(('0', ')')),
        VirtualKey::Digit1 => Some(('1', '!')),
        VirtualKey::Digit2 => Some(('2', '@')),
        VirtualKey::Digit3 => Some(('3', '#')),
        VirtualKey::Digit4 => Some(('4', '$')),
        VirtualKey::Digit5 => Some(('5', '%')),
        VirtualKey::Digit6 => Some(('6', '^')),
        VirtualKey::Digit7 => Some(('7', '&')),
        VirtualKey::Digit8 => Some(('8', '*')),
        VirtualKey::Digit9 => Some(('9', '(')),
        VirtualKey::Minus => Some(('-', '_')),
        VirtualKey::Equal => Some(('=', '+')),
        VirtualKey::BracketLeft => Some(('[', '{')),
        VirtualKey::BracketRight => Some((']', '}')),
        VirtualKey::Backslash => Some(('\\', '|')),
        VirtualKey::Semicolon => Some((';', ':')),
        VirtualKey::Quote => Some(('\'', '"')),
        VirtualKey::Backquote => Some(('`', '~')),
        VirtualKey::Comma => Some((',', '<')),
        VirtualKey::Period => Some(('.', '>')),
        VirtualKey::Slash => Some(('/', '?')),
        VirtualKey::Space => Some((' ', ' ')),
        VirtualKey::Enter => None,
        VirtualKey::Tab => None,
        VirtualKey::Escape => None,
        VirtualKey::Backspace => None,
        VirtualKey::Insert => None,
        VirtualKey::Delete => None,
        VirtualKey::Home => None,
        VirtualKey::End => None,
        VirtualKey::PageUp => None,
        VirtualKey::PageDown => None,
        VirtualKey::ArrowUp => None,
        VirtualKey::ArrowDown => None,
        VirtualKey::ArrowLeft => None,
        VirtualKey::ArrowRight => None,
        VirtualKey::F1 => None,
        VirtualKey::F2 => None,
        VirtualKey::F3 => None,
        VirtualKey::F4 => None,
        VirtualKey::F5 => None,
        VirtualKey::F6 => None,
        VirtualKey::F7 => None,
        VirtualKey::F8 => None,
        VirtualKey::F9 => None,
        VirtualKey::F10 => None,
        VirtualKey::F11 => None,
        VirtualKey::F12 => None,
        VirtualKey::NumLock => None,
        VirtualKey::CapsLock => None,
        VirtualKey::ScrollLock => None,
        VirtualKey::PrintScreen => None,
        VirtualKey::Pause => None,
        VirtualKey::ContextMenu => None,
        VirtualKey::ShiftLeft => None,
        VirtualKey::ShiftRight => None,
        VirtualKey::ControlLeft => None,
        VirtualKey::ControlRight => None,
        VirtualKey::AltLeft => None,
        VirtualKey::AltRight => None,
        VirtualKey::MetaLeft => None,
        VirtualKey::MetaRight => None,
        VirtualKey::Numpad0 => Some(('0', '0')),
        VirtualKey::Numpad1 => Some(('1', '1')),
        VirtualKey::Numpad2 => Some(('2', '2')),
        VirtualKey::Numpad3 => Some(('3', '3')),
        VirtualKey::Numpad4 => Some(('4', '4')),
        VirtualKey::Numpad5 => Some(('5', '5')),
        VirtualKey::Numpad6 => Some(('6', '6')),
        VirtualKey::Numpad7 => Some(('7', '7')),
        VirtualKey::Numpad8 => Some(('8', '8')),
        VirtualKey::Numpad9 => Some(('9', '9')),
        VirtualKey::NumpadAdd => Some(('+', '+')),
        VirtualKey::NumpadSubtract => Some(('-', '-')),
        VirtualKey::NumpadMultiply => Some(('*', '*')),
        VirtualKey::NumpadDivide => Some(('/', '/')),
        VirtualKey::NumpadDecimal => Some(('.', '.')),
        VirtualKey::NumpadEnter => None,
    }
}

/// Translate a virtual key into its logical meaning under the given
/// shift state: exactly one `Key` per input, with the shift-dependent
/// character composed for printable keys.
pub fn vk_key(vk: VirtualKey, shift: bool) -> (k: Key)
    ensures
        vk_key_corresponds(vk, shift, k),
{
    match vk_char(vk, shift) {
        Some(c) => char_key(c),
        None => vk_named_key_exec(vk),
    }
}

/// The named-key table, executable form.
fn vk_named_key_exec(vk: VirtualKey) -> (k: Key)
    ensures
        k == vk_named_key(vk),
{
    match vk {
        VirtualKey::KeyA => Key::Unidentified,
        VirtualKey::KeyB => Key::Unidentified,
        VirtualKey::KeyC => Key::Unidentified,
        VirtualKey::KeyD => Key::Unidentified,
        VirtualKey::KeyE => Key::Unidentified,
        VirtualKey::KeyF => Key::Unidentified,
        VirtualKey::KeyG => Key::Unidentified,
        VirtualKey::KeyH => Key::Unidentified,
        VirtualKey::KeyI => Key::Unidentified,
        VirtualKey::KeyJ => Key::Unidentified,
        VirtualKey::KeyK => Key::Unidentified,
        VirtualKey::KeyL => Key::Unidentified,
        VirtualKey::KeyM => Key::Unidentified,
        VirtualKey::KeyN => Key::Unidentified,
        VirtualKey::KeyO => Key::Unidentified,
        VirtualKey::KeyP => Key::Unidentified,
        VirtualKey::KeyQ => Key::Unidentified,
        VirtualKey::KeyR => Key::Unidentified,
        VirtualKey::KeyS => Key::Unidentified,
        VirtualKey::KeyT => Key::Unidentified,
        VirtualKey::KeyU => Key::Unidentified,
        VirtualKey::KeyV => Key::Unidentified,
        VirtualKey::KeyW => Key::Unidentified,
        VirtualKey::KeyX => Key::Unidentified,
        VirtualKey::KeyY => Key::Unidentified,
        VirtualKey::KeyZ => Key::Unidentified,
        VirtualKey::Digit0 => Key::Unidentified,
        VirtualKey::Digit1 => Key::Unidentified,
        VirtualKey::Digit2 => Key::Unidentified,
        VirtualKey::Digit3 => Key::Unidentified,
        VirtualKey::Digit4 => Key::Unidentified,
        VirtualKey::Digit5 => Key::Unidentified,
        VirtualKey::Digit6 => Key::Unidentified,
        VirtualKey::Digit7 => Key::Unidentified,
        VirtualKey::Digit8 => Key::Unidentified,
        VirtualKey::Digit9 => Key::Unidentified,
        VirtualKey::Minus => Key::Unidentified,
        VirtualKey::Equal => Key::Unidentified,
        VirtualKey::BracketLeft => Key::Unidentified,
        VirtualKey::BracketRight => Key::Unidentified,
        VirtualKey::Backslash => Key::Unidentified,
        VirtualKey::Semicolon => Key::Unidentified,
        VirtualKey::Quote => Key::Unidentified,
        VirtualKey::Backquote => Key::Unidentified,
        VirtualKey::Comma => Key::Unidentified,
        VirtualKey::Period => Key::Unidentified,
        VirtualKey::Slash => Key::Unidentified,
        VirtualKey::Space => Key::Unidentified,
        VirtualKey::Enter => Key::Enter,
        VirtualKey::Tab => Key::Tab,
        VirtualKey::Escape => Key::Escape,
        VirtualKey::Backspace => Key::Backspace,
        VirtualKey::Insert => Key::Insert,
        VirtualKey::Delete => Key::Delete,
        VirtualKey::Home => Key::Home,
        VirtualKey::End => Key::End,
        VirtualKey::PageUp => Key::PageUp,
        VirtualKey::PageDown => Key::PageDown,
        VirtualKey::ArrowUp => Key::ArrowUp,
        VirtualKey::ArrowDown => Key::ArrowDown,
        VirtualKey::ArrowLeft => Key::ArrowLeft,
        VirtualKey::ArrowRight => Key::ArrowRight,
        VirtualKey::F1 => Key::F1,
        VirtualKey::F2 => Key::F2,
        VirtualKey::F3 => Key::F3,
        VirtualKey::F4 => Key::F4,
        VirtualKey::F5 => Key::F5,
        VirtualKey::F6 => Key::F6,
        VirtualKey::F7 => Key::F7,
        VirtualKey::F8 => Key::F8,
        VirtualKey::F9 => Key::F9,
        VirtualKey::F10 => Key::F10,
        VirtualKey::F11 => Key::F11,
        VirtualKey::F12 => Key::F12,
        VirtualKey::NumLock => Key::NumLock,
        VirtualKey::CapsLock => Key::CapsLock,
        VirtualKey::ScrollLock => Key::ScrollLock,
        VirtualKey::PrintScreen => Key::PrintScreen,
        VirtualKey::Pause => Key::Pause,
        VirtualKey::ContextMenu => Key::ContextMenu,
        VirtualKey::ShiftLeft => Key::Shift,
        VirtualKey::ShiftRight => Key::Shift,
        VirtualKey::ControlLeft => Key::Control,
        VirtualKey::ControlRight => Key::Control,
        VirtualKey::AltLeft => Key::Alt,
        VirtualKey::AltRight => Key::Alt,
        VirtualKey::MetaLeft => Key::Meta,
        VirtualKey::MetaRight => Key::Meta,
        VirtualKey::Numpad0 => Key::Unidentified,
        VirtualKey::Numpad1 => Key::Unidentified,
        VirtualKey::Numpad2 => Key::Unidentified,
        VirtualKey::Numpad3 => Key::Unidentified,
        VirtualKey::Numpad4 => Key::Unidentified,
        VirtualKey::Numpad5 => Key::Unidentified,
        VirtualKey::Numpad6 => Key::Unidentified,
        VirtualKey::Numpad7 => Key::Unidentified,
        VirtualKey::Numpad8 => Key::Unidentified,
        VirtualKey::Numpad9 => Key::Unidentified,
        VirtualKey::NumpadAdd => Key::Unidentified,
        VirtualKey::NumpadSubtract => Key::Unidentified,
        VirtualKey::NumpadMultiply => Key::Unidentified,
        VirtualKey::NumpadDivide => Key::Unidentified,
        VirtualKey::NumpadDecimal => Key::Unidentified,
        VirtualKey::NumpadEnter => Key::Enter,
    }
}

/// Translate a virtual key into its physical position. The function
/// takes no modifier state: the position of a physical key can never
/// depend on it.
pub fn vk_code(vk: VirtualKey) -> (c: Code)
    ensures
        c == vk_code_of(vk),
{
    match vk {
        VirtualKey::KeyA => Code::KeyA,
        VirtualKey::KeyB => Code::KeyB,
        VirtualKey::KeyC => Code::KeyC,
        VirtualKey::KeyD => Code::KeyD,
        VirtualKey::KeyE => Code::KeyE,
        VirtualKey::KeyF => Code::KeyF,
        VirtualKey::KeyG => Code::KeyG,
        VirtualKey::KeyH => Code::KeyH,
        VirtualKey::KeyI => Code::KeyI,
        VirtualKey::KeyJ => Code::KeyJ,
        VirtualKey::KeyK => Code::KeyK,
        VirtualKey::KeyL => Code::KeyL,
        VirtualKey::KeyM => Code::KeyM,
        VirtualKey::KeyN => Code::KeyN,
        VirtualKey::KeyO => Code::KeyO,
        VirtualKey::KeyP => Code::KeyP,
        VirtualKey::KeyQ => Code::KeyQ,
        VirtualKey::KeyR => Code::KeyR,
        VirtualKey::KeyS => Code::KeyS,
        VirtualKey::KeyT => Code::KeyT,
        VirtualKey::KeyU => Code::KeyU,
        VirtualKey::KeyV => Code::KeyV,
        VirtualKey::KeyW => Code::KeyW,
        VirtualKey::KeyX => Code::KeyX,
        VirtualKey::KeyY => Code::KeyY,
        VirtualKey::KeyZ => Code::KeyZ,
        VirtualKey::Digit0 => Code::Digit0,
        VirtualKey::Digit1 => Code::Digit1,
        VirtualKey::Digit2 => Code::Digit2,
        VirtualKey::Digit3 => Code::Digit3,
        VirtualKey::Digit4 => Code::Digit4,
        VirtualKey::Digit5 => Code::Digit5,
        VirtualKey::Digit6 => Code::Digit6,
        VirtualKey::Digit7 => Code::Digit7,
        VirtualKey::Digit8 => Code::Digit8,
        VirtualKey::Digit9 => Code::Digit9,
        VirtualKey::Minus => Code::Minus,
        VirtualKey::Equal => Code::Equal,
        VirtualKey::BracketLeft => Code::BracketLeft,
        VirtualKey::BracketRight => Code::BracketRight,
        VirtualKey::Backslash => Code::Backslash,
        VirtualKey::Semicolon => Code::Semicolon,
        VirtualKey::Quote => Code::Quote,
        VirtualKey::Backquote => Code::Backquote,
        VirtualKey::Comma => Code::Comma,
        VirtualKey::Period => Code::Period,
        VirtualKey::Slash => Code::Slash,
        VirtualKey::Space => Code::Space,
        VirtualKey::Enter => Code::Enter,
        VirtualKey::Tab => Code::Tab,
        VirtualKey::Escape => Code::Escape,
        VirtualKey::Backspace => Code::Backspace,
        VirtualKey::Insert => Code::Insert,
        VirtualKey::Delete => Code::Delete,
        VirtualKey::Home => Code::Home,
        VirtualKey::End => Code::End,
        VirtualKey::PageUp => Code::PageUp,
        VirtualKey::PageDown => Code::PageDown,
        VirtualKey::ArrowUp => Code::ArrowUp,
        VirtualKey::ArrowDown => Code::ArrowDown,
        VirtualKey::ArrowLeft => Code::ArrowLeft,
        VirtualKey::ArrowRight => Code::ArrowRight,
        VirtualKey::F1 => Code::F1,
        VirtualKey::F2 => Code::F2,
        VirtualKey::F3 => Code::F3,
        VirtualKey::F4 => Code::F4,
        VirtualKey::F5 => Code::F5,
        VirtualKey::F6 => Code::F6,
        VirtualKey::F7 => Code::F7,
        VirtualKey::F8 => Code::F8,
        VirtualKey::F9 => Code::F9,
        VirtualKey::F10 => Code::F10,
        VirtualKey::F11 => Code::F11,
        VirtualKey::F12 => Code::F12,
        VirtualKey::NumLock => Code::NumLock,
        VirtualKey::CapsLock => Code::CapsLock,
        VirtualKey::ScrollLock => Code::ScrollLock,
        VirtualKey::PrintScreen => Code::PrintScreen,
        VirtualKey::Pause => Code::Pause,
        VirtualKey::ContextMenu => Code::ContextMenu,
        VirtualKey::ShiftLeft => Code::ShiftLeft,
        VirtualKey::ShiftRight => Code::ShiftRight,
        VirtualKey::ControlLeft => Code::ControlLeft,
        VirtualKey::ControlRight => Code::ControlRight,
        VirtualKey::AltLeft => Code::AltLeft,
        VirtualKey::AltRight => Code::AltRight,
        VirtualKey::MetaLeft => Code::MetaLeft,
        VirtualKey::MetaRight => Code::MetaRight,
        VirtualKey::Numpad0 => Code::Numpad0,
        VirtualKey::Numpad1 => Code::Numpad1,
        VirtualKey::Numpad2 => Code::Numpad2,
        VirtualKey::Numpad3 => Code::Numpad3,
        VirtualKey::Numpad4 => Code::Numpad4,
        VirtualKey::Numpad5 => Code::Numpad5,
        VirtualKey::Numpad6 => Code::Numpad6,
        VirtualKey::Numpad7 => Code::Numpad7,
        VirtualKey::Numpad8 => Code::Numpad8,
        VirtualKey::Numpad9 => Code::Numpad9,
        VirtualKey::NumpadAdd => Code::NumpadAdd,
        VirtualKey::NumpadSubtract => Code::NumpadSubtract,
        VirtualKey::NumpadMultiply => Code::NumpadMultiply,
        VirtualKey::NumpadDivide => Code::NumpadDivide,
        VirtualKey::NumpadDecimal => Code::NumpadDecimal,
        VirtualKey::NumpadEnter => Code::NumpadEnter,
    }
}

/// Translate a virtual key into its location.
pub fn vk_location(vk: VirtualKey) -> (l: Location)
    ensures
        l == vk_location_of(vk),
{
    match vk {
        VirtualKey::KeyA => Location::Standard,
        VirtualKey::KeyB => Location::Standard,
        VirtualKey::KeyC => Location::Standard,
        VirtualKey::KeyD => Location::Standard,
        VirtualKey::KeyE => Location::Standard,
        VirtualKey::KeyF => Location::Standard,
        VirtualKey::KeyG => Location::Standard,
        VirtualKey::KeyH => Location::Standard,
        VirtualKey::KeyI => Location::Standard,
        VirtualKey::KeyJ => Location::Standard,
        VirtualKey::KeyK => Location::Standard,
        VirtualKey::KeyL => Location::Standard,
        VirtualKey::KeyM => Location::Standard,
        VirtualKey::KeyN => Location::Standard,
        VirtualKey::KeyO => Location::Standard,
        VirtualKey::KeyP => Location::Standard,
        VirtualKey::KeyQ => Location::Standard,
        VirtualKey::KeyR => Location::Standard,
        VirtualKey::KeyS => Location::Standard,
        VirtualKey::KeyT => Location::Standard,
        VirtualKey::KeyU => Location::Standard,
        VirtualKey::KeyV => Location::Standard,
        VirtualKey::KeyW => Location::Standard,
        VirtualKey::KeyX => Location::Standard,
        VirtualKey::KeyY => Location::Standard,
        VirtualKey::KeyZ => Location::Standard,
        VirtualKey::Digit0 => Location::Standard,
        VirtualKey::Digit1 => Location::Standard,
        VirtualKey::Digit2 => Location::Standard,
        VirtualKey::Digit3 => Location::Standard,
        VirtualKey::Digit4 => Location::Standard,
        VirtualKey::Digit5 => Location::Standard,
        VirtualKey::Digit6 => Location::Standard,
        VirtualKey::Digit7 => Location::Standard,
        VirtualKey::Digit8 => Location::Standard,
        VirtualKey::Digit9 => Location::Standard,
        VirtualKey::Minus => Location::Standard,
        VirtualKey::Equal => Location::Standard,
        VirtualKey::BracketLeft => Location::Standard,
        VirtualKey::BracketRight => Location::Standard,
        VirtualKey::Backslash => Location::Standard,
        VirtualKey::Semicolon => Location::Standard,
        VirtualKey::Quote => Location::Standard,
        VirtualKey::Backquote => Location::Standard,
        VirtualKey::Comma => Location::Standard,
        VirtualKey::Period => Location::Standard,
        VirtualKey::Slash => Location::Standard,
        VirtualKey::Space => Location::Standard,
        VirtualKey::Enter => Location::Standard,
        VirtualKey::Tab => Location::Standard,
        VirtualKey::Escape => Location::Standard,
        VirtualKey::Backspace => Location::Standard,
        VirtualKey::Insert => Location::Standard,
        VirtualKey::Delete => Location::Standard,
        VirtualKey::Home => Location::Standard,
        VirtualKey::End => Location::Standard,
        VirtualKey::PageUp => Location::Standard,
        VirtualKey::PageDown => Location::Standard,
        VirtualKey::ArrowUp => Location::Standard,
        VirtualKey::ArrowDown => Location::Standard,
        VirtualKey::ArrowLeft => Location::Standard,
        VirtualKey::ArrowRight => Location::Standard,
        VirtualKey::F1 => Location::Standard,
        VirtualKey::F2 => Location::Standard,
        VirtualKey::F3 => Location::Standard,
        VirtualKey::F4 => Location::Standard,
        VirtualKey::F5 => Location::Standard,
        VirtualKey::F6 => Location::Standard,
        VirtualKey::F7 => Location::Standard,
        VirtualKey::F8 => Location::Standard,
        VirtualKey::F9 => Location::Standard,
        VirtualKey::F10 => Location::Standard,
        VirtualKey::F11 => Location::Standard,
        VirtualKey::F12 => Location::Standard,
        VirtualKey::NumLock => Location::Standard,
        VirtualKey::CapsLock => Location::Standard,
        VirtualKey::ScrollLock => Location::Standard,
        VirtualKey::PrintScreen => Location::Standard,
        VirtualKey::Pause => Location::Standard,
        VirtualKey::ContextMenu => Location::Standard,
        VirtualKey::ShiftLeft => Location::Left,
        VirtualKey::ShiftRight => Location::Right,
        VirtualKey::ControlLeft => Location::Left,
        VirtualKey::ControlRight => Location::Right,
        VirtualKey::AltLeft => Location::Left,
        VirtualKey::AltRight => Location::Right,
        VirtualKey::MetaLeft => Location::Left,
        VirtualKey::MetaRight => Location::Right,
        VirtualKey::Numpad0 => Location::Numpad,
        VirtualKey::Numpad1 => Location::Numpad,
        VirtualKey::Numpad2 => Location::Numpad,
        VirtualKey::Numpad3 => Location::Numpad,
        VirtualKey::Numpad4 => Location::Numpad,
        VirtualKey::Numpad5 => Location::Numpad,
        VirtualKey::Numpad6 => Location::Numpad,
        VirtualKey::Numpad7 => Location::Numpad,
        VirtualKey::Numpad8 => Location::Numpad,
        VirtualKey::Numpad9 => Location::Numpad,
        VirtualKey::NumpadAdd => Location::Numpad,
        VirtualKey::NumpadSubtract => Location::Numpad,
        VirtualKey::NumpadMultiply => Location::Numpad,
        VirtualKey::NumpadDivide => Location::Numpad,
        VirtualKey::NumpadDecimal => Location::Numpad,
        VirtualKey::NumpadEnter => Location::Numpad,
    }
}

/// What a normalized key event built from a virtual key must hold: the
/// shift-dependent meaning, the shift-independent position and
/// location, and the modifier set in effect at translation time.
pub open spec fn vk_event_corresponds(
    vk: VirtualKey,
    mods: Modifiers,
    state: KeyState,
    repeat: bool,
    e: KeyEvent,
) -> bool {
    &&& vk_key_corresponds(vk, mods.spec_contains(Modifiers(SHIFT_BIT)), e.key)
    &&& e.code == vk_code_of(vk)
    &&& e.location == vk_location_of(vk)
    &&& e.mods == mods
    &&& e.state == state
    &&& e.repeat == repeat
    &&& !e.is_composing
}

/// Build the normalized key event for one raw virtual-key occurrence.
/// The shift state is read from the modifier set handed in, which the
/// dispatcher keeps per window.
pub fn translate_virtual(
    vk: VirtualKey,
    mods: Modifiers,
    state: KeyState,
    repeat: bool,
) -> (e: KeyEvent)
    ensures
        vk_event_corresponds(vk, mods, state, repeat, e),
{
    let shift = mods.contains(Modifiers(SHIFT_BIT));
    KeyEvent {
        state,
        key: vk_key(vk, shift),
        code: vk_code(vk),
        location: vk_location(vk),
        mods,
        repeat,
        is_composing: false,
    }
}

/// `Code` and `Location` are shift-invariant: two translations of the
/// same virtual key agree on both, whatever modifier sets were in
/// effect, even where the composed `Key` differs.
pub proof fn lemma_code_shift_invariant(
    vk: VirtualKey,
    m1: Modifiers,
    m2: Modifiers,
    s1: KeyState,
    s2: KeyState,
    r1: bool,
    r2: bool,
    e1: KeyEvent,
    e2: KeyEvent,
)
    requires
        vk_event_corresponds(vk, m1, s1, r1, e1),
        vk_event_corresponds(vk, m2, s2, r2, e2),
    ensures
        e1.code == e2.code,
        e1.location == e2.location,
{
}

/// Virtual-key translation is a pure function of the key and the shift
/// state: translating the same raw input twice yields the same
/// character, position and location.
pub proof fn lemma_vk_translation_deterministic(
    vk: VirtualKey,
    mods: Modifiers,
    state: KeyState,
    repeat: bool,
    e1: KeyEvent,
    e2: KeyEvent,
)
    requires
        vk_event_corresponds(vk, mods, state, repeat, e1),
        vk_event_corresponds(vk, mods, state, repeat, e2),
    ensures
        crate::keys::key_view_eq(e1.key, e2.key),
        e1.code == e2.code,
        e1.location == e2.location,
        e1.mods == e2.mods,
        e1.state == e2.state,
        e1.repeat == e2.repeat,
{
}

} // verus!

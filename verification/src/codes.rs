//! The physical-key-position enumeration.

use vstd::prelude::*;
use crate::keyboard::Location;

verus! {

/// A physical key position on the keyboard, independent of the active
/// layout and of modifier state. The same physical key always yields
/// the same `Code`, whatever `Key` it composes; positions outside the
/// table degrade to `Unidentified`.
#[derive(Clone, Copy, Debug, PartialEq, Eq, Hash, Structural)]
pub enum Code {
    KeyA,
    KeyB,
    KeyC,
    KeyD,
    KeyE,
    KeyF,
    KeyG,
    KeyH,
    KeyI,
    KeyJ,
    KeyK,
    KeyL,
    KeyM,
    KeyN,
    KeyO,
    KeyP,
    KeyQ,
    KeyR,
    KeyS,
    KeyT,
    KeyU,
    KeyV,
    KeyW,
    KeyX,
    KeyY,
    KeyZ,
    Digit0,
    Digit1,
    Digit2,
    Digit3,
    Digit4,
    Digit5,
    Digit6,
    Digit7,
    Digit8,
    Digit9,
    Minus,
    Equal,
    BracketLeft,
    BracketRight,
    Backslash,
    Semicolon,
    Quote,
    Backquote,
    Comma,
    Period,
    Slash,
    IntlBackslash,
    IntlRo,
    IntlYen,
    Enter,
    Escape,
    Backspace,
    Tab,
    Space,
    CapsLock,
    F1,
    F2,
    F3,
    F4,
    F5,
    F6,
    F7,
    F8,
    F9,
    F10,
    F11,
    F12,
    PrintScreen,
    ScrollLock,
    Pause,
    Insert,
    Home,
    PageUp,
    Delete,
    End,
    PageDown,
    ArrowRight,
    ArrowLeft,
    ArrowDown,
    ArrowUp,
    NumLock,
    NumpadDivide,
    NumpadMultiply,
    NumpadSubtract,
    NumpadAdd,
    NumpadEnter,
    Numpad0,
    Numpad1,
    Numpad2,
    Numpad3,
    Numpad4,
    Numpad5,
    Numpad6,
    Numpad7,
    Numpad8,
    Numpad9,
    NumpadDecimal,
    NumpadEqual,
    NumpadComma,
    ControlLeft,
    ControlRight,
    ShiftLeft,
    ShiftRight,
    AltLeft,
    AltRight,
    MetaLeft,
    MetaRight,
    ContextMenu,
    AudioVolumeUp,
    AudioVolumeDown,
    AudioVolumeMute,
    MediaTrackNext,
    MediaTrackPrevious,
    MediaPlayPause,
    MediaStop,
    BrowserBack,
    BrowserForward,
    BrowserRefresh,
    BrowserHome,
    BrowserSearch,
    BrowserFavorites,
    BrowserStop,
    LaunchMail,
    LaunchApp1,
    LaunchApp2,
    Power,
    Sleep,
    WakeUp,
    Fn,
    Unidentified,
}

/// The location a physical position implies: the numeric-pad block
/// carries `Numpad`, the paired modifier keys `Left` or `Right`, every
/// other position `Standard`.
pub open spec fn code_location_of(code: Code) -> Location {
    match code {
        Code::KeyA => Location::Standard,
        Code::KeyB => Location::Standard,
        Code::KeyC => Location::Standard,
        Code::KeyD => Location::Standard,
        Code::KeyE => Location::Standard,
        Code::KeyF => Location::Standard,
        Code::KeyG => Location::Standard,
        Code::KeyH => Location::Standard,
        Code::KeyI => Location::Standard,
        Code::KeyJ => Location::Standard,
        Code::KeyK => Location::Standard,
        Code::KeyL => Location::Standard,
        Code::KeyM => Location::Standard,
        Code::KeyN => Location::Standard,
        Code::KeyO => Location::Standard,
        Code::KeyP => Location::Standard,
        Code::KeyQ => Location::Standard,
        Code::KeyR => Location::Standard,
        Code::KeyS => Location::Standard,
        Code::KeyT => Location::Standard,
        Code::KeyU => Location::Standard,
        Code::KeyV => Location::Standard,
        Code::KeyW => Location::Standard,
        Code::KeyX => Location::Standard,
        Code::KeyY => Location::Standard,
        Code::KeyZ => Location::Standard,
        Code::Digit0 => Location::Standard,
        Code::Digit1 => Location::Standard,
        Code::Digit2 => Location::Standard,
        Code::Digit3 => Location::Standard,
        Code::Digit4 => Location::Standard,
        Code::Digit5 => Location::Standard,
        Code::Digit6 => Location::Standard,
        Code::Digit7 => Location::Standard,
        Code::Digit8 => Location::Standard,
        Code::Digit9 => Location::Standard,
        Code::Minus => Location::Standard,
        Code::Equal => Location::Standard,
        Code::BracketLeft => Location::Standard,
        Code::BracketRight => Location::Standard,
        Code::Backslash => Location::Standard,
        Code::Semicolon => Location::Standard,
        Code::Quote => Location::Standard,
        Code::Backquote => Location::Standard,
        Code::Comma => Location::Standard,
        Code::Period => Location::Standard,
        Code::Slash => Location::Standard,
        Code::IntlBackslash => Location::Standard,
        Code::IntlRo => Location::Standard,
        Code::IntlYen => Location::Standard,
        Code::Enter => Location::Standard,
        Code::Escape => Location::Standard,
        Code::Backspace => Location::Standard,
        Code::Tab => Location::Standard,
        Code::Space => Location::Standard,
        Code::CapsLock => Location::Standard,
        Code::F1 => Location::Standard,
        Code::F2 => Location::Standard,
        Code::F3 => Location::Standard,
        Code::F4 => Location::Standard,
        Code::F5 => Location::Standard,
        Code::F6 => Location::Standard,
        Code::F7 => Location::Standard,
        Code::F8 => Location::Standard,
        Code::F9 => Location::Standard,
        Code::F10 => Location::Standard,
        Code::F11 => Location::Standard,
        Code::F12 => Location::Standard,
        Code::PrintScreen => Location::Standard,
        Code::ScrollLock => Location::Standard,
        Code::Pause => Location::Standard,
        Code::Insert => Location::Standard,
        Code::Home => Location::Standard,
        Code::PageUp => Location::Standard,
        Code::Delete => Location::Standard,
        Code::End => Location::Standard,
        Code::PageDown => Location::Standard,
        Code::ArrowRight => Location::Standard,
        Code::ArrowLeft => Location::Standard,
        Code::ArrowDown => Location::Standard,
        Code::ArrowUp => Location::Standard,
        Code::NumLock => Location::Standard,
        Code::NumpadDivide => Location::Numpad,
        Code::NumpadMultiply => Location::Numpad,
        Code::NumpadSubtract => Location::Numpad,
        Code::NumpadAdd => Location::Numpad,
        Code::NumpadEnter => Location::Numpad,
        Code::Numpad0 => Location::Numpad,
        Code::Numpad1 => Location::Numpad,
        Code::Numpad2 => Location::Numpad,
        Code::Numpad3 => Location::Numpad,
        Code::Numpad4 => Location::Numpad,
        Code::Numpad5 => Location::Numpad,
        Code::Numpad6 => Location::Numpad,
        Code::Numpad7 => Location::Numpad,
        Code::Numpad8 => Location::Numpad,
        Code::Numpad9 => Location::Numpad,
        Code::NumpadDecimal => Location::Numpad,
        Code::NumpadEqual => Location::Numpad,
        Code::NumpadComma => Location::Numpad,
        Code::ControlLeft => Location::Left,
        Code::ControlRight => Location::Right,
        Code::ShiftLeft => Location::Left,
        Code::ShiftRight => Location::Right,
        Code::AltLeft => Location::Left,
        Code::AltRight => Location::Right,
        Code::MetaLeft => Location::Left,
        Code::MetaRight => Location::Right,
        Code::ContextMenu => Location::Standard,
        Code::AudioVolumeUp => Location::Standard,
        Code::AudioVolumeDown => Location::Standard,
        Code::AudioVolumeMute => Location::Standard,
        Code::MediaTrackNext => Location::Standard,
        Code::MediaTrackPrevious => Location::Standard,
        Code::MediaPlayPause => Location::Standard,
        Code::MediaStop => Location::Standard,
        Code::BrowserBack => Location::Standard,
        Code::BrowserForward => Location::Standard,
        Code::BrowserRefresh => Location::Standard,
        Code::BrowserHome => Location::Standard,
        Code::BrowserSearch => Location::Standard,
        Code::BrowserFavorites => Location::Standard,
        Code::BrowserStop => Location::Standard,
        Code::LaunchMail => Location::Standard,
        Code::LaunchApp1 => Location::Standard,
        Code::LaunchApp2 => Location::Standard,
        Code::Power => Location::Standard,
        Code::Sleep => Location::Standard,
        Code::WakeUp => Location::Standard,
        Code::Fn => Location::Standard,
        Code::Unidentified => Location::Standard,
    }
}

/// Derive the location of a key from its physical position.
pub fn code_location(code: Code) -> (l: Location)
    ensures
        l == code_location_of(code),
{
    match code {
        Code::KeyA => Location::Standard,
        Code::KeyB => Location::Standard,
        Code::KeyC => Location::Standard,
        Code::KeyD => Location::Standard,
        Code::KeyE => Location::Standard,
        Code::KeyF => Location::Standard,
        Code::KeyG => Location::Standard,
        Code::KeyH => Location::Standard,
        Code::KeyI => Location::Standard,
        Code::KeyJ => Location::Standard,
        Code::KeyK => Location::Standard,
        Code::KeyL => Location::Standard,
        Code::KeyM => Location::Standard,
        Code::KeyN => Location::Standard,
        Code::KeyO => Location::Standard,
        Code::KeyP => Location::Standard,
        Code::KeyQ => Location::Standard,
        Code::KeyR => Location::Standard,
        Code::KeyS => Location::Standard,
        Code::KeyT => Location::Standard,
        Code::KeyU => Location::Standard,
        Code::KeyV => Location::Standard,
        Code::KeyW => Location::Standard,
        Code::KeyX => Location::Standard,
        Code::KeyY => Location::Standard,
        Code::KeyZ => Location::Standard,
        Code::Digit0 => Location::Standard,
        Code::Digit1 => Location::Standard,
        Code::Digit2 => Location::Standard,
        Code::Digit3 => Location::Standard,
        Code::Digit4 => Location::Standard,
        Code::Digit5 => Location::Standard,
        Code::Digit6 => Location::Standard,
        Code::Digit7 => Location::Standard,
        Code::Digit8 => Location::Standard,
        Code::Digit9 => Location::Standard,
        Code::Minus => Location::Standard,
        Code::Equal => Location::Standard,
        Code::BracketLeft => Location::Standard,
        Code::BracketRight => Location::Standard,
        Code::Backslash => Location::Standard,
        Code::Semicolon => Location::Standard,
        Code::Quote => Location::Standard,
        Code::Backquote => Location::Standard,
        Code::Comma => Location::Standard,
        Code::Period => Location::Standard,
        Code::Slash => Location::Standard,
        Code::IntlBackslash => Location::Standard,
        Code::IntlRo => Location::Standard,
        Code::IntlYen => Location::Standard,
        Code::Enter => Location::Standard,
        Code::Escape => Location::Standard,
        Code::Backspace => Location::Standard,
        Code::Tab => Location::Standard,
        Code::Space => Location::Standard,
        Code::CapsLock => Location::Standard,
        Code::F1 => Location::Standard,
        Code::F2 => Location::Standard,
        Code::F3 => Location::Standard,
        Code::F4 => Location::Standard,
        Code::F5 => Location::Standard,
        Code::F6 => Location::Standard,
        Code::F7 => Location::Standard,
        Code::F8 => Location::Standard,
        Code::F9 => Location::Standard,
        Code::F10 => Location::Standard,
        Code::F11 => Location::Standard,
        Code::F12 => Location::Standard,
        Code::PrintScreen => Location::Standard,
        Code::ScrollLock => Location::Standard,
        Code::Pause => Location::Standard,
        Code::Insert => Location::Standard,
        Code::Home => Location::Standard,
        Code::PageUp => Location::Standard,
        Code::Delete => Location::Standard,
        Code::End => Location::Standard,
        Code::PageDown => Location::Standard,
        Code::ArrowRight => Location::Standard,
        Code::ArrowLeft => Location::Standard,
        Code::ArrowDown => Location::Standard,
        Code::ArrowUp => Location::Standard,
        Code::NumLock => Location::Standard,
        Code::NumpadDivide => Location::Numpad,
        Code::NumpadMultiply => Location::Numpad,
        Code::NumpadSubtract => Location::Numpad,
        Code::NumpadAdd => Location::Numpad,
        Code::NumpadEnter => Location::Numpad,
        Code::Numpad0 => Location::Numpad,
        Code::Numpad1 => Location::Numpad,
        Code::Numpad2 => Location::Numpad,
        Code::Numpad3 => Location::Numpad,
        Code::Numpad4 => Location::Numpad,
        Code::Numpad5 => Location::Numpad,
        Code::Numpad6 => Location::Numpad,
        Code::Numpad7 => Location::Numpad,
        Code::Numpad8 => Location::Numpad,
        Code::Numpad9 => Location::Numpad,
        Code::NumpadDecimal => Location::Numpad,
        Code::NumpadEqual => Location::Numpad,
        Code::NumpadComma => Location::Numpad,
        Code::ControlLeft => Location::Left,
        Code::ControlRight => Location::Right,
        Code::ShiftLeft => Location::Left,
        Code::ShiftRight => Location::Right,
        Code::AltLeft => Location::Left,
        Code::AltRight => Location::Right,
        Code::MetaLeft => Location::Left,
        Code::MetaRight => Location::Right,
        Code::ContextMenu => Location::Standard,
        Code::AudioVolumeUp => Location::Standard,
        Code::AudioVolumeDown => Location::Standard,
        Code::AudioVolumeMute => Location::Standard,
        Code::MediaTrackNext => Location::Standard,
        Code::MediaTrackPrevious => Location::Standard,
        Code::MediaPlayPause => Location::Standard,
        Code::MediaStop => Location::Standard,
        Code::BrowserBack => Location::Standard,
        Code::BrowserForward => Location::Standard,
        Code::BrowserRefresh => Location::Standard,
        Code::BrowserHome => Location::Standard,
        Code::BrowserSearch => Location::Standard,
        Code::BrowserFavorites => Location::Standard,
        Code::BrowserStop => Location::Standard,
        Code::LaunchMail => Location::Standard,
        Code::LaunchApp1 => Location::Standard,
        Code::LaunchApp2 => Location::Standard,
        Code::Power => Location::Standard,
        Code::Sleep => Location::Standard,
        Code::WakeUp => Location::Standard,
        Code::Fn => Location::Standard,
        Code::Unidentified => Location::Standard,
    }
}

} // verus!

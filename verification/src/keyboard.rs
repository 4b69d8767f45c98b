//! The normalized keyboard event.

use vstd::prelude::*;
use crate::codes::Code;
use crate::keys::Key;
use crate::modifiers::Modifiers;

verus! {

/// Whether the key is pressed or released.
#[derive(Clone, Copy, Debug, PartialEq, Eq, Hash, Structural)]
pub enum KeyState {
    Down,
    Up,
}

/// Location for keys with multiple instances on common keyboards: the
/// paired modifier keys carry `Left` or `Right`, the numeric pad
/// carries `Numpad`, everything else `Standard`.
#[derive(Clone, Copy, Debug, PartialEq, Eq, Hash, Structural)]
pub enum Location {
    Standard,
    Left,
    Right,
    Numpad,
}

/// Information about one keyboard occurrence, constructed fresh per raw
/// hardware event inside the run loop and immutable once dispatched.
#[derive(Clone, Debug, PartialEq, Eq, Hash)]
pub struct KeyEvent {
    /// Whether the key is pressed or released.
    pub state: KeyState,
    /// Logical key value.
    pub key: Key,
    /// Physical key position.
    pub code: Code,
    /// Location for keys with multiple instances on common keyboards.
    pub location: Location,
    /// Flags for pressed modifier keys.
    pub mods: Modifiers,
    /// True if the key is currently auto-repeated.
    pub repeat: bool,
    /// Events with this flag should be ignored in a text editor and
    /// composition events used instead.
    pub is_composing: bool,
}

/// A convenience trait for creating `Key` values: implemented by `Key`
/// itself and by string slices, which become the `Character` variant.
pub trait IntoKey: Sized {
    /// What the produced key must be for this value.
    spec fn key_matches(&self, k: Key) -> bool;

    /// Produce the key this value stands for.
    fn into_key(self) -> (k: Key)
        ensures
            self.key_matches(k),
    ;
}

impl IntoKey for Key {
    open spec fn key_matches(&self, k: Key) -> bool {
        k == *self
    }

    fn into_key(self) -> (k: Key) {
        self
    }
}

impl<'a> IntoKey for &'a str {
    open spec fn key_matches(&self, k: Key) -> bool {
        k matches Key::Character(s) && s@ == self@
    }

    fn into_key(self) -> (k: Key) {
        Key::Character(self.to_string())
    }
}

impl KeyEvent {
    /// Create a key-down event with the given modifiers and key, the
    /// unidentified position and the standard location; meant for
    /// driving a handler in tests.
    pub fn for_test<K: IntoKey>(mods: Modifiers, key: K) -> (e: KeyEvent)
        ensures
            key.key_matches(e.key),
            e.code == Code::Unidentified,
            e.location == Location::Standard,
            e.state == KeyState::Down,
            e.mods == mods,
            !e.repeat,
            !e.is_composing,
    {
        KeyEvent {
            key: key.into_key(),
            code: Code::Unidentified,
            location: Location::Standard,
            state: KeyState::Down,
            mods,
            is_composing: false,
            repeat: false,
        }
    }
}

impl Default for KeyEvent {
    /// A released-of-everything placeholder event: key down of the
    /// unidentified key at the standard location, with no modifiers.
    fn default() -> (e: KeyEvent)
        ensures
            e.state == KeyState::Down,
            e.key == Key::Unidentified,
            e.code == Code::Unidentified,
            e.location == Location::Standard,
            e.mods.0 == 0,
            !e.repeat,
            !e.is_composing,
    {
        KeyEvent {
            state: KeyState::Down,
            key: Key::Unidentified,
            code: Code::Unidentified,
            location: Location::Standard,
            mods: Modifiers(0),
            repeat: false,
            is_composing: false,
        }
    }
}

} // verus!

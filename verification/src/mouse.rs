//! Mouse buttons, the pressed-button set, the normalized mouse event
//! and the cursor model.

use vstd::prelude::*;
use crate::geometry::Point;
use crate::geometry::Vec2;
use crate::modifiers::Modifiers;

verus! {

/// One mouse button. `NoButton` stands for an occurrence that names no
/// button, such as pure motion or a button the model does not know.
#[derive(Clone, Copy, Debug, PartialEq, Eq, Hash, Structural)]
pub enum MouseButton {
    NoButton,
    Left,
    Right,
    Middle,
    X1,
    X2,
}

/// The bit a button occupies in the pressed-button set; `None` owns no
/// bit, so inserting or removing it never changes the set.
pub open spec fn button_bit(b: MouseButton) -> u8 {
    match b {
        MouseButton::NoButton => 0,
        MouseButton::Left => 0x1,
        MouseButton::Right => 0x2,
        MouseButton::Middle => 0x4,
        MouseButton::X1 => 0x8,
        MouseButton::X2 => 0x10,
    }
}

/// The set of mouse buttons currently pressed, as a bitset. The
/// dispatcher owns one per window and updates it only on button
/// occurrences: insert on press, remove on release.
#[derive(Clone, Copy, Debug, PartialEq, Eq, Hash, Structural)]
pub struct MouseButtons(pub u8);

impl MouseButtons {
    /// True when every bit of `b`'s button is set in `self`.
    pub open spec fn spec_contains(self, b: MouseButton) -> bool {
        b != MouseButton::NoButton && self.0 & button_bit(b) == button_bit(b)
    }

    /// An empty set: no buttons pressed.
    pub fn new() -> (s: MouseButtons)
        ensures
            s.0 == 0,
    {
        MouseButtons(0)
    }

    /// Add `button` to the set; adding `None` changes nothing.
    pub fn insert(&mut self, button: MouseButton)
        ensures
            final(self).0 == old(self).0 | button_bit(button),
    {
        self.0 = self.0 | button_bit_exec(button);
    }

    /// Remove `button` from the set; removing `None` changes nothing.
    pub fn remove(&mut self, button: MouseButton)
        ensures
            final(self).0 == old(self).0 & !button_bit(button),
    {
        self.0 = self.0 & !button_bit_exec(button);
    }

    /// Whether `button` is in the set; `None` never is.
    pub fn contains(&self, button: MouseButton) -> (r: bool)
        ensures
            r == self.spec_contains(button),
    {
        match button {
            MouseButton::NoButton => false,
            _ => {
                let bit = button_bit_exec(button);
                self.0 & bit == bit
            },
        }
    }

    /// Whether no button is pressed.
    pub fn is_empty(&self) -> (r: bool)
        ensures
            r == (self.0 == 0),
    {
        self.0 == 0
    }
}

impl Default for MouseButtons {
    /// The empty set.
    fn default() -> (s: MouseButtons)
        ensures
            s.0 == 0,
    {
        MouseButtons(0)
    }
}

/// The bit of a button, executable form.
fn button_bit_exec(b: MouseButton) -> (r: u8)
    ensures
        r == button_bit(b),
{
    match b {
        MouseButton::NoButton => 0,
        MouseButton::Left => 0x1,
        MouseButton::Right => 0x2,
        MouseButton::Middle => 0x4,
        MouseButton::X1 => 0x8,
        MouseButton::X2 => 0x10,
    }
}

/// Pressing a button puts exactly that button into the set and touches
/// no other; releasing it takes exactly it out again. In particular a
/// press on an empty set leaves only that button pressed, and the
/// matching release restores the empty set.
pub proof fn lemma_press_release(s: MouseButtons, b: MouseButton)
    requires
        b != MouseButton::NoButton,
    ensures
        MouseButtons(s.0 | button_bit(b)).spec_contains(b),
        s.0 & button_bit(b) == 0 ==> (s.0 | button_bit(b)) & !button_bit(b) == s.0,
        s.0 == 0 ==> (s.0 | button_bit(b)) & !button_bit(b) == 0,
        forall|other: MouseButton|
            other != b && other != MouseButton::NoButton ==> (MouseButtons(
                s.0 | button_bit(b),
            ).spec_contains(other) == s.spec_contains(other)),
{
    let x = s.0;
    let bit = button_bit(b);
    assert((x | bit) & bit == bit) by (bit_vector);
    assert(x & bit == 0 ==> (x | bit) & !bit == x) by (bit_vector);
    assert(x == 0 ==> (x | bit) & !bit == 0) by (bit_vector);
    assert forall|other: MouseButton|
        other != b && other != MouseButton::NoButton implies (MouseButtons(
        x | bit,
    ).spec_contains(other) == s.spec_contains(other)) by {
        lemma_button_bits_disjoint(b, other);
        let obit = button_bit(other);
        assert(bit & obit == 0 ==> ((x | bit) & obit == obit <==> x & obit == obit))
            by (bit_vector);
    }
}

/// Distinct buttons occupy disjoint bits of the set.
proof fn lemma_button_bits_disjoint(a: MouseButton, b: MouseButton)
    requires
        a != b,
    ensures
        button_bit(a) & button_bit(b) == 0,
{
    let x = button_bit(a);
    let y = button_bit(b);
    match a {
        MouseButton::NoButton => match b {
            MouseButton::NoButton => {
                assert(x != y);
            },
            MouseButton::Left => {
                assert(x != y);
            },
            MouseButton::Right => {
                assert(x != y);
            },
            MouseButton::Middle => {
                assert(x != y);
            },
            MouseButton::X1 => {
                assert(x != y);
            },
            MouseButton::X2 => {
                assert(x != y);
            },
        },
        MouseButton::Left => match b {
            MouseButton::NoButton => {
                assert(x != y);
            },
            MouseButton::Left => {
                assert(x != y);
            },
            MouseButton::Right => {
                assert(x != y);
            },
            MouseButton::Middle => {
                assert(x != y);
            },
            MouseButton::X1 => {
                assert(x != y);
            },
            MouseButton::X2 => {
                assert(x != y);
            },
        },
        MouseButton::Right => match b {
            MouseButton::NoButton => {
                assert(x != y);
            },
            MouseButton::Left => {
                assert(x != y);
            },
            MouseButton::Right => {
                assert(x != y);
            },
            MouseButton::Middle => {
                assert(x != y);
            },
            MouseButton::X1 => {
                assert(x != y);
            },
            MouseButton::X2 => {
                assert(x != y);
            },
        },
        MouseButton::Middle => match b {
            MouseButton::NoButton => {
                assert(x != y);
            },
            MouseButton::Left => {
                assert(x != y);
            },
            MouseButton::Right => {
                assert(x != y);
            },
            MouseButton::Middle => {
                assert(x != y);
            },
            MouseButton::X1 => {
                assert(x != y);
            },
            MouseButton::X2 => {
                assert(x != y);
            },
        },
        MouseButton::X1 => match b {
            MouseButton::NoButton => {
                assert(x != y);
            },
            MouseButton::Left => {
                assert(x != y);
            },
            MouseButton::Right => {
                assert(x != y);
            },
            MouseButton::Middle => {
                assert(x != y);
            },
            MouseButton::X1 => {
                assert(x != y);
            },
            MouseButton::X2 => {
                assert(x != y);
            },
        },
        MouseButton::X2 => match b {
            MouseButton::NoButton => {
                assert(x != y);
            },
            MouseButton::Left => {
                assert(x != y);
            },
            MouseButton::Right => {
                assert(x != y);
            },
            MouseButton::Middle => {
                assert(x != y);
            },
            MouseButton::X1 => {
                assert(x != y);
            },
            MouseButton::X2 => {
                assert(x != y);
            },
        },
    }
    assert((x == 0 || x == 1 || x == 2 || x == 4 || x == 8 || x == 16) && (y == 0 || y == 1
        || y == 2 || y == 4 || y == 8 || y == 16) && x != y ==> x & y == 0) by (bit_vector);
}

/// Information about one mouse occurrence. Fields a single backend
/// callback does not carry — the cursor position, the pressed buttons,
/// the modifiers — come from the per-window state the dispatcher keeps.
#[derive(Clone, Copy, Debug, PartialEq, Eq, Hash, Structural)]
pub struct MouseEvent {
    /// The position of the mouse in the coordinate space of the window.
    pub pos: Point,
    /// The position of the mouse in the coordinate space of the window.
    pub window_pos: Point,
    /// The currently pressed buttons.
    pub buttons: MouseButtons,
    /// The modifiers in effect when the event happened.
    pub mods: Modifiers,
    /// The click count of the event.
    pub count: u8,
    /// Focus is `true` on macOS when the click activated the window.
    pub focus: bool,
    /// The button whose press or release caused the event, if any.
    pub button: MouseButton,
    /// The wheel movement of a scroll occurrence.
    pub wheel_delta: Vec2,
}

/// An abstract cursor kind; a compile-time-closed enumeration, so an
/// unknown kind is impossible rather than a runtime error.
#[derive(Clone, Copy, Debug, PartialEq, Eq, Hash, Structural)]
pub enum Cursor {
    Arrow,
    IBeam,
    Pointer,
    Crosshair,
    NotAllowed,
    ResizeLeftRight,
    ResizeUpDown,
}

/// The cursor icon vocabulary of the windowing backend.
#[derive(Clone, Copy, Debug, PartialEq, Eq, Hash, Structural)]
pub enum CursorIcon {
    Arrow,
    Text,
    Hand,
    Crosshair,
    NotAllowed,
    ColResize,
    RowResize,
}

/// The backend icon an abstract cursor kind maps to.
pub open spec fn cursor_icon_of(c: Cursor) -> CursorIcon {
    match c {
        Cursor::Arrow => CursorIcon::Arrow,
        Cursor::IBeam => CursorIcon::Text,
        Cursor::Pointer => CursorIcon::Hand,
        Cursor::Crosshair => CursorIcon::Crosshair,
        Cursor::NotAllowed => CursorIcon::NotAllowed,
        Cursor::ResizeLeftRight => CursorIcon::ColResize,
        Cursor::ResizeUpDown => CursorIcon::RowResize,
    }
}

/// Map an abstract cursor kind to the backend icon to apply.
pub fn cursor_icon(cursor: &Cursor) -> (r: CursorIcon)
    ensures
        r == cursor_icon_of(*cursor),
{
    match cursor {
        Cursor::Arrow => CursorIcon::Arrow,
        Cursor::IBeam => CursorIcon::Text,
        Cursor::Pointer => CursorIcon::Hand,
        Cursor::Crosshair => CursorIcon::Crosshair,
        Cursor::NotAllowed => CursorIcon::NotAllowed,
        Cursor::ResizeLeftRight => CursorIcon::ColResize,
        Cursor::ResizeUpDown => CursorIcon::RowResize,
    }
}

} // verus!

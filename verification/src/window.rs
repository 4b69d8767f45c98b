//! Per-window state and the window-state vocabulary: levels, the
//! maximize/minimize tri-state and the commands it decomposes into, and
//! the text-field registry with its focus invariant.

use vstd::prelude::*;
use crate::geometry::Point;
use crate::geometry::Scale;
use crate::modifiers::Modifiers;
use crate::mouse::MouseButtons;
use crate::tokens::Counter;
use crate::tokens::TextFieldToken;
use crate::tokens::WindowId;

verus! {

/// Levels in the window system: z-order for display purposes.
#[derive(Copy, Clone, Debug, PartialEq, Eq, Hash, Structural)]
pub enum WindowLevel {
    /// A top level app window.
    AppWindow,
    /// A window that should stay above app windows, like a tooltip.
    Tooltip,
    /// A user interface element such as a dropdown menu or combo box.
    DropDown,
    /// A modal dialog.
    Modal,
}

/// The different states a window can be in.
#[derive(Debug, Clone, Copy, PartialEq, Eq, Hash, Structural)]
pub enum WindowState {
    Maximized,
    Minimized,
    Restored,
}

/// What the backend must be told to reach a requested window state:
/// whether to set the maximized flag, and whether to set the minimized
/// flag. `None` leaves a flag untouched.
#[derive(Debug, Clone, Copy, PartialEq, Eq, Hash, Structural)]
pub struct WindowStateCommand {
    pub set_maximized: Option<bool>,
    pub set_minimized: Option<bool>,
}

/// The backend commands a requested window state decomposes into:
/// maximizing sets the maximized flag, minimizing the minimized flag,
/// and restoring clears both.
pub open spec fn window_state_command_of(state: WindowState) -> WindowStateCommand {
    match state {
        WindowState::Maximized => WindowStateCommand {
            set_maximized: Some(true),
            set_minimized: None,
        },
        WindowState::Minimized => WindowStateCommand {
            set_maximized: None,
            set_minimized: Some(true),
        },
        WindowState::Restored => WindowStateCommand {
            set_maximized: Some(false),
            set_minimized: Some(false),
        },
    }
}

/// Decompose a requested window state into backend flag commands.
pub fn window_state_command(state: WindowState) -> (r: WindowStateCommand)
    ensures
        r == window_state_command_of(state),
{
    match state {
        WindowState::Maximized => WindowStateCommand {
            set_maximized: Some(true),
            set_minimized: None,
        },
        WindowState::Minimized => WindowStateCommand {
            set_maximized: None,
            set_minimized: Some(true),
        },
        WindowState::Restored => WindowStateCommand {
            set_maximized: Some(false),
            set_minimized: Some(false),
        },
    }
}

/// The window state the backend's maximized flag means: maximized when
/// the flag is set, restored otherwise. The backend reports no
/// minimized flag, so `Minimized` is never read back.
pub fn window_state_from_flags(maximized: bool) -> (r: WindowState)
    ensures
        r == if maximized {
            WindowState::Maximized
        } else {
            WindowState::Restored
        },
{
    if maximized {
        WindowState::Maximized
    } else {
        WindowState::Restored
    }
}

/// The text input fields registered inside one window, and which of
/// them holds focus. Removing the focused field clears focus: no
/// dangling focused-field reference outlives removal.
#[derive(Clone, Debug)]
pub struct TextFieldRegistry {
    /// The registered fields, in registration order.
    pub fields: Vec<TextFieldToken>,
    /// The focused field, if any.
    pub focused: Option<TextFieldToken>,
    /// Mints the field tokens.
    pub counter: Counter,
}

impl TextFieldRegistry {
    /// The registry is well formed while its tokens are distinct and
    /// below the counter, and focus points at a registered field.
    pub open spec fn wf(self) -> bool {
        &&& self.counter.wf()
        &&& forall|i: int|
            0 <= i < self.fields@.len() ==> #[trigger] self.fields@[i].0 < self.counter.next_value
        &&& forall|i: int, j: int|
            0 <= i < j < self.fields@.len() ==> #[trigger] self.fields@[i]
                != #[trigger] self.fields@[j]
        &&& match self.focused {
            Some(t) => self.fields@.contains(t),
            None => true,
        }
    }

    /// An empty registry: no fields, no focus.
    pub fn new() -> (r: TextFieldRegistry)
        ensures
            r.wf(),
            r.fields@.len() == 0,
            r.focused is None,
    {
        TextFieldRegistry { fields: Vec::new(), focused: None, counter: Counter::new() }
    }

    /// Register a new text input field: mints a fresh token, distinct
    /// from every registered one, and appends it.
    pub fn add_text_field(&mut self) -> (t: TextFieldToken)
        requires
            old(self).wf(),
            old(self).counter.next_value < u64::MAX,
            old(self).fields@.len() < usize::MAX,
        ensures
            final(self).wf(),
            final(self).fields@ == old(self).fields@.push(t),
            !old(self).fields@.contains(t),
            final(self).focused == old(self).focused,
            t.0 != 0,
    {
        let ghost s = self.fields@;
        let t = TextFieldToken::next(&mut self.counter);
        proof {
            assert forall|i: int| 0 <= i < s.len() implies s[i] != t by {
                assert(s[i].0 < t.0);
            }
        }
        self.fields.push(t);
        proof {
            let f2 = self.fields@;
            assert forall|i: int|
                0 <= i < f2.len() implies #[trigger] f2[i].0 < self.counter.next_value by {
                if i < s.len() {
                    assert(f2[i] == s[i]);
                }
            }
            assert forall|a: int, b: int| 0 <= a < b < f2.len() implies f2[a] != f2[b] by {
                if b < s.len() {
                    assert(f2[a] == s[a] && f2[b] == s[b]);
                } else {
                    assert(f2[a] == s[a] && f2[b] == t);
                }
            }
            match self.focused {
                Some(f) => {
                    let fi = choose|fi: int| 0 <= fi < s.len() && s[fi] == f;
                    assert(f2[fi] == f);
                },
                None => {},
            }
        }
        t
    }

    /// Unregister a previously registered field. The token leaves the
    /// registry; if it was the focused field, focus is cleared, so no
    /// focused-field reference dangles. An unregistered token leaves
    /// the registry unchanged.
    pub fn remove_text_field(&mut self, token: TextFieldToken)
        requires
            old(self).wf(),
        ensures
            final(self).wf(),
            !final(self).fields@.contains(token),
            final(self).fields@.to_multiset() == old(self).fields@.to_multiset().remove(token),
            final(self).focused == if old(self).focused == Some(token) {
                Option::<TextFieldToken>::None
            } else {
                old(self).focused
            },
            final(self).counter == old(self).counter,
    {
        let ghost s = self.fields@;
        match find_field(&self.fields, token) {
            Some(i) => {
                self.fields.remove(i);
                proof {
                    let f2 = self.fields@;
                    vstd::seq_lib::to_multiset_remove(s, i as int);
                    assert forall|k: int| 0 <= k < f2.len() implies #[trigger] f2[k] != token by {
                        if k < i {
                            assert(f2[k] == s[k] && s[k] != s[i as int]);
                        } else {
                            assert(f2[k] == s[k + 1] && s[i as int] != s[k + 1]);
                        }
                    }
                    assert(!f2.contains(token));
                    assert forall|k: int|
                        0 <= k < f2.len() implies #[trigger] f2[k].0 < self.counter.next_value by {
                        if k < i {
                            assert(f2[k] == s[k]);
                        } else {
                            assert(f2[k] == s[k + 1]);
                        }
                    }
                    assert forall|a: int, b: int| 0 <= a < b < f2.len() implies f2[a] != f2[b] by {
                        let a0: int = if a < i { a } else { a + 1 };
                        let b0: int = if b < i { b } else { b + 1 };
                        assert(f2[a] == s[a0] && f2[b] == s[b0]);
                        assert(s[a0] != s[b0]);
                    }
                }
                match self.focused {
                    Some(f) => {
                        if f.0 == token.0 {
                            self.focused = None;
                        } else {
                            proof {
                                let f2 = self.fields@;
                                assert(s.contains(f));
                                let fi = choose|fi: int| 0 <= fi < s.len() && s[fi] == f;
                                assert(fi != i);
                                if fi < i {
                                    assert(f2[fi] == s[fi]);
                                } else {
                                    assert(f2[fi - 1] == s[fi]);
                                }
                                assert(f2.contains(f));
                            }
                        }
                    },
                    None => {},
                }
            },
            None => {
                proof {
                    broadcast use vstd::seq_lib::group_to_multiset_ensures;
                    broadcast use vstd::multiset::group_multiset_axioms;

                    assert(s.to_multiset().count(token) == 0);
                    assert(s.to_multiset().remove(token) =~= s.to_multiset());
                    if self.focused == Some(token) {
                        assert(s.contains(token));
                    }
                }
            },
        }
    }

    /// Make `active_field` the focused field, or clear focus with
    /// `None`. The field must be registered: focusing an unregistered
    /// token is a programming error, not a runtime condition.
    pub fn set_focused_text_field(&mut self, active_field: Option<TextFieldToken>)
        requires
            old(self).wf(),
            match active_field {
                Some(t) => old(self).fields@.contains(t),
                None => true,
            },
        ensures
            final(self).wf(),
            final(self).focused == active_field,
            final(self).fields == old(self).fields,
            final(self).counter == old(self).counter,
    {
        self.focused = active_field;
    }
}

/// The position of `token` among the registered fields: the first index
/// holding it, or nothing when it is not registered.
fn find_field(fields: &Vec<TextFieldToken>, token: TextFieldToken) -> (r: Option<usize>)
    ensures
        match r {
            Some(i) => i < fields@.len() && fields@[i as int] == token,
            None => !fields@.contains(token),
        },
{
    let n = fields.len();
    let mut i: usize = 0;
    while i < n
        invariant
            0 <= i <= n,
            n == fields@.len(),
            forall|j: int| 0 <= j < i ==> fields@[j] != token,
        decreases n - i,
    {
        if fields[i].0 == token.0 {
            return Some(i);
        }
        i = i + 1;
    }
    None
}

/// The mutable state the dispatcher keeps for one window between
/// events: the modifiers in effect, the pressed mouse buttons, the last
/// known cursor position, the reported DPI scale and the text-field
/// registry. Individual
/// backend callbacks omit fields (pure motion carries no modifiers), so
/// this running state is what gets threaded into each normalized event.
#[derive(Clone, Debug)]
pub struct WindowRecord {
    /// The window this state belongs to.
    pub id: WindowId,
    /// The modifiers in effect, updated by modifier-change
    /// notifications before any key or mouse event is translated.
    pub mods: Modifiers,
    /// The pressed buttons, updated only by button occurrences.
    pub buttons: MouseButtons,
    /// The last known cursor position.
    pub mouse_pos: Point,
    /// The DPI scale last reported for the window.
    pub scale: Scale,
    /// The text input fields of the window.
    pub text: TextFieldRegistry,
}

impl WindowRecord {
    /// A record is well formed while its registry is.
    pub open spec fn wf(self) -> bool {
        self.text.wf()
    }

    /// Fresh per-window state: no modifiers, no buttons, cursor at the
    /// origin, no text fields.
    pub fn new(id: WindowId) -> (r: WindowRecord)
        ensures
            r.wf(),
            r.id == id,
            r.mods.0 == 0,
            r.buttons.0 == 0,
            r.mouse_pos.x == 0 && r.mouse_pos.y == 0,
            r.scale.thousandths == 1000,
            r.text.fields@.len() == 0,
            r.text.focused is None,
    {
        WindowRecord {
            id,
            mods: Modifiers(0),
            buttons: MouseButtons(0),
            mouse_pos: Point { x: 0, y: 0 },
            scale: Scale { thousandths: 1000 },
            text: TextFieldRegistry::new(),
        }
    }
}

} // verus!

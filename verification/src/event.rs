//! The normalized event model: one closed variant per window-level
//! occurrence, a pure data carrier with no side effects.

use vstd::prelude::*;
use crate::geometry::Point;
use crate::geometry::Scale;
use crate::geometry::Size;
use crate::keyboard::KeyEvent;
use crate::mouse::MouseEvent;
use crate::tokens::IdleToken;
use crate::tokens::TimerToken;

verus! {

/// A window-level occurrence, normalized. For any raw backend
/// occurrence exactly one `Event` value is produced before being handed
/// to the application handler; none is synthesized speculatively.
#[derive(Clone, Debug, PartialEq, Eq)]
pub enum Event {
    /// The window was resized, with the new scale where the backend
    /// reported one.
    WindowSize(Size, Option<Scale>),
    /// The window was moved to this position.
    WindowMoved(Point),
    /// A key went down.
    KeyDown(KeyEvent),
    /// A key came up.
    KeyUp(KeyEvent),
    /// The mouse moved.
    MouseMove(MouseEvent),
    /// A mouse button was pressed.
    MouseDown(MouseEvent),
    /// A mouse button was released.
    MouseUp(MouseEvent),
    /// The wheel scrolled.
    Wheel(MouseEvent),
    /// A timer registered earlier reached its deadline.
    Timer(TimerToken),
    /// An idle task scheduled from some thread runs now.
    Idle(IdleToken),
    /// The window gained keyboard focus.
    GotFocus,
    /// The window lost keyboard focus.
    LostFocus,
    /// The user asked to close the window; forwarded as a request, not
    /// a destruction.
    CloseRequested,
    /// The window is being torn down.
    Destroyed,
    /// The whole application is quitting.
    ApplicationQuit,
}

} // verus!

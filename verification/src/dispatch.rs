//! The run-loop dispatcher: one control loop that normalizes each raw
//! backend occurrence into at most one event, threads the per-window
//! state (modifiers, buttons, cursor position, scale) into it, keeps
//! the timer queue and the wake-up instant, and says exactly which
//! handler invocations follow.

use vstd::prelude::*;
use crate::codes::code_location_of;
use crate::codes::code_location;
use crate::codes::Code;
use crate::event::Event;
use crate::geometry::Point;
use crate::geometry::Scale;
use crate::geometry::Size;
use crate::geometry::Vec2;
use crate::keyboard::KeyEvent;
use crate::keyboard::KeyState;
use crate::keys::key_corresponds;
use crate::keys::winit_key;
use crate::keys::RawKey;
use crate::modifiers::Modifiers;
use crate::modifiers::ALT_BIT;
use crate::modifiers::CONTROL_BIT;
use crate::modifiers::META_BIT;
use crate::modifiers::SHIFT_BIT;
use crate::mouse::button_bit;
use crate::mouse::MouseButton;
use crate::mouse::MouseButtons;
use crate::mouse::MouseEvent;
use crate::timer_queue::TimerEntry;
use crate::timer_queue::TimerQueue;
use crate::tokens::IdleToken;
use crate::tokens::TimerToken;
use crate::tokens::WindowId;
use crate::vk::translate_virtual;
use crate::vk::vk_event_corresponds;
use crate::vk::VirtualKey;
use crate::window::WindowRecord;

verus! {

/// A raw per-window occurrence as the backend reports it, already
/// converted to plain values by the shim around the loop (positions in
/// display points, the scale in thousandths).
#[derive(Clone, Debug, PartialEq, Eq)]
pub enum RawWindowEvent {
    /// The DPI scale changed, with the new inner size.
    ScaleFactorChanged { size: Size, scale: Scale },
    /// The window was resized.
    Resized { size: Size },
    /// The window moved.
    Moved { pos: Point },
    /// The user asked to close the window.
    CloseRequested,
    /// The native window is being destroyed.
    Destroyed,
    /// The window gained keyboard focus.
    GotFocus,
    /// The window lost keyboard focus.
    LostFocus,
    /// The held modifier keys changed.
    ModifiersChanged { shift: bool, ctrl: bool, alt: bool, meta: bool },
    /// The wheel scrolled.
    MouseWheel { delta: Vec2 },
    /// The cursor moved.
    CursorMoved { pos: Point },
    /// A mouse button was pressed or released.
    MouseInput { pressed: bool, button: MouseButton },
    /// A keyboard event in the logical-key style: the backend already
    /// composed the text or named the key.
    KeyboardInput { pressed: bool, key: RawKey, code: Code, repeat: bool, is_composing: bool },
    /// A keyboard event in the virtual-key-code style: only an abstract
    /// key identifier; the translator composes the character itself.
    VirtualKeyInput { pressed: bool, vk: VirtualKey, repeat: bool },
}

/// An occurrence posted into the loop from a handle, possibly from
/// another thread.
#[derive(Clone, Copy, Debug, PartialEq, Eq, Hash, Structural)]
pub enum WinitEvent {
    /// Run an idle task on the loop thread.
    Idle(IdleToken),
    /// Schedule a timer for the window: wake `delay` ticks from now and
    /// deliver `Timer(token)`.
    Timer(WindowId, TimerToken, u64),
    /// A new window is pending construction; the shim builds it.
    NewWindow,
}

/// One woken occurrence of the run loop.
#[derive(Clone, Debug, PartialEq, Eq)]
pub enum RawEvent {
    /// The loop just started.
    Init,
    /// The wait ended because the earliest timer deadline was reached.
    ResumeTimeReached,
    /// A posted occurrence arrived.
    User(WinitEvent),
    /// A window-level occurrence arrived.
    Window { window: WindowId, event: RawWindowEvent },
    /// The backend asks for a redraw; painting is driven by the shim
    /// directly and produces no normalized event.
    RedrawRequested { window: WindowId },
    /// The loop is being torn down.
    LoopDestroyed,
}

/// What the loop does next: block indefinitely, block until an instant,
/// or stop.
#[derive(Clone, Copy, Debug, PartialEq, Eq, Hash, Structural)]
pub enum ControlFlow {
    Wait,
    WaitUntil(u64),
    Exit,
}

/// One handler invocation owed to the application: the normalized event
/// and the window it belongs to. Window id zero carries the
/// application-level events (idle tasks, quit), which belong to no
/// window.
#[derive(Clone, Debug, PartialEq, Eq)]
pub struct Dispatch {
    pub window: WindowId,
    pub event: Event,
}

/// The run-loop state: the per-window records, the pending timers, the
/// control flow, and the explicit policy of whether closing the last
/// window stops the loop.
#[derive(Clone, Debug)]
pub struct Dispatcher {
    pub windows: Vec<WindowRecord>,
    pub timers: TimerQueue,
    pub control: ControlFlow,
    pub quit_on_last_close: bool,
}

/// No two records describe the same window.
pub open spec fn distinct_ids(ws: Seq<WindowRecord>) -> bool {
    forall|i: int, j: int| 0 <= i < j < ws.len() ==> ws[i].id != ws[j].id
}

/// Whether some record describes `id`.
pub open spec fn has_window(ws: Seq<WindowRecord>, id: WindowId) -> bool {
    exists|i: int| 0 <= i < ws.len() && ws[i].id == id
}

/// The index of the record describing `id`; meaningful under
/// `has_window` and `distinct_ids`.
pub open spec fn window_at(ws: Seq<WindowRecord>, id: WindowId) -> int {
    choose|i: int| 0 <= i < ws.len() && ws[i].id == id
}

/// The modifiers stored for `id`, or the empty set for an unknown
/// window.
pub open spec fn mods_of(ws: Seq<WindowRecord>, id: WindowId) -> Modifiers {
    if has_window(ws, id) {
        ws[window_at(ws, id)].mods
    } else {
        Modifiers(0)
    }
}

/// The pressed buttons stored for `id`, or the empty set.
pub open spec fn buttons_of(ws: Seq<WindowRecord>, id: WindowId) -> MouseButtons {
    if has_window(ws, id) {
        ws[window_at(ws, id)].buttons
    } else {
        MouseButtons(0)
    }
}

/// The cursor position stored for `id`, or the origin.
pub open spec fn pos_of(ws: Seq<WindowRecord>, id: WindowId) -> Point {
    if has_window(ws, id) {
        ws[window_at(ws, id)].mouse_pos
    } else {
        Point { x: 0, y: 0 }
    }
}

/// The scale stored for `id`, or the identity scale.
pub open spec fn scale_of(ws: Seq<WindowRecord>, id: WindowId) -> Scale {
    if has_window(ws, id) {
        ws[window_at(ws, id)].scale
    } else {
        Scale { thousandths: 1000 }
    }
}

/// The modifier bits a modifier-change notification carries: one flag
/// per reported key, nothing else.
pub open spec fn mods_from_flags(shift: bool, ctrl: bool, alt: bool, meta: bool) -> u32 {
    (if shift {
        SHIFT_BIT
    } else {
        0
    }) | (if ctrl {
        CONTROL_BIT
    } else {
        0
    }) | (if alt {
        ALT_BIT
    } else {
        0
    }) | (if meta {
        META_BIT
    } else {
        0
    })
}

/// The mouse event the dispatcher builds: the occurrence's own fields
/// plus the stored state threaded in; the position doubles as the
/// window position and the click count starts at zero.
pub open spec fn stateful_mouse_event(
    pos: Point,
    buttons: MouseButtons,
    mods: Modifiers,
    button: MouseButton,
    delta: Vec2,
) -> MouseEvent {
    MouseEvent {
        pos,
        window_pos: pos,
        buttons,
        mods,
        count: 0,
        focus: false,
        button,
        wheel_delta: delta,
    }
}

/// What the normalized key event of a logical-key occurrence must hold:
/// the translated key, the position and its location, the stored
/// modifiers, and the occurrence's own flags.
pub open spec fn normalized_key_event(
    pressed: bool,
    key: RawKey,
    code: Code,
    mods: Modifiers,
    repeat: bool,
    is_composing: bool,
    e: KeyEvent,
) -> bool {
    &&& key_corresponds(key, e.key)
    &&& e.code == code
    &&& e.location == code_location_of(code)
    &&& e.mods == mods
    &&& e.repeat == repeat
    &&& e.is_composing == is_composing
    &&& e.state == if pressed {
        KeyState::Down
    } else {
        KeyState::Up
    }
}

/// The wait the loop computes from its pending timers: until the
/// earliest deadline, or indefinitely with none pending.
pub open spec fn control_for_timers(entries: Seq<TimerEntry>) -> ControlFlow {
    if entries.len() == 0 {
        ControlFlow::Wait
    } else {
        ControlFlow::WaitUntil(entries[0].deadline)
    }
}

/// Whether the earliest pending timer is due at `now`.
pub open spec fn timer_due(q: TimerQueue, now: u64) -> bool {
    q.entries@.len() > 0 && q.entries@[0].deadline <= now
}

/// Everything but the control flow is unchanged.
pub open spec fn same_but_control(pre: Dispatcher, post: Dispatcher) -> bool {
    &&& post.windows == pre.windows
    &&& post.timers == pre.timers
    &&& post.quit_on_last_close == pre.quit_on_last_close
}

/// Nothing changed.
pub open spec fn state_unchanged(pre: Dispatcher, post: Dispatcher) -> bool {
    same_but_control(pre, post) && post.control == pre.control
}

/// The transition relation of the dispatcher: for each woken raw
/// occurrence, exactly which events are produced, in order, and exactly
/// how the state moves. This is the state machine of the run loop.
pub open spec fn step_rel(
    pre: Dispatcher,
    now: u64,
    raw: RawEvent,
    post: Dispatcher,
    out: Seq<Dispatch>,
) -> bool {
    match raw {
        RawEvent::Init => {
            &&& same_but_control(pre, post)
            &&& post.control == ControlFlow::Wait
            &&& out.len() == 0
        },
        RawEvent::ResumeTimeReached => {
            &&& post.windows == pre.windows
            &&& post.quit_on_last_close == pre.quit_on_last_close
            &&& post.timers.next_seq == pre.timers.next_seq
            &&& if timer_due(pre.timers, now) {
                &&& post.timers.entries@ == pre.timers.entries@.remove(0)
                &&& out.len() == 1
                &&& out[0] == (Dispatch {
                    window: pre.timers.entries@[0].window,
                    event: Event::Timer(pre.timers.entries@[0].token),
                })
            } else {
                &&& post.timers.entries@ == pre.timers.entries@
                &&& out.len() == 0
            }
            &&& post.control == control_for_timers(post.timers.entries@)
        },
        RawEvent::User(user) => match user {
            WinitEvent::Idle(token) => {
                &&& state_unchanged(pre, post)
                &&& out.len() == 1
                &&& out[0] == (Dispatch { window: WindowId(0), event: Event::Idle(token) })
            },
            WinitEvent::Timer(window, token, delay) => {
                &&& post.windows == pre.windows
                &&& post.quit_on_last_close == pre.quit_on_last_close
                &&& post.timers.entries@.len() == pre.timers.entries@.len() + 1
                &&& post.timers.entries@.to_multiset() == pre.timers.entries@.to_multiset().insert(
                    (TimerEntry {
                        deadline: (now + delay) as u64,
                        seq: pre.timers.next_seq,
                        window,
                        token,
                    }),
                )
                &&& post.timers.next_seq == pre.timers.next_seq + 1
                &&& post.control == control_for_timers(post.timers.entries@)
                &&& out.len() == 0
            },
            WinitEvent::NewWindow => {
                &&& state_unchanged(pre, post)
                &&& out.len() == 0
            },
        },
        RawEvent::LoopDestroyed => {
            &&& state_unchanged(pre, post)
            &&& out.len() == 1
            &&& out[0] == (Dispatch { window: WindowId(0), event: Event::ApplicationQuit })
        },
        RawEvent::RedrawRequested { .. } => {
            &&& state_unchanged(pre, post)
            &&& out.len() == 0
        },
        RawEvent::Window { window, event } => {
            &&& post.timers == pre.timers
            &&& post.quit_on_last_close == pre.quit_on_last_close
            &&& post.control == pre.control
            &&& window_step_rel(pre.windows@, window, event, post.windows@, out)
        },
    }
}

/// The window-level part of the transition relation: how the one
/// record of the addressed window moves and which event is produced.
/// Occurrences for an unknown window still dispatch, built from default
/// state, but update nothing.
pub open spec fn window_step_rel(
    ws: Seq<WindowRecord>,
    w: WindowId,
    event: RawWindowEvent,
    post: Seq<WindowRecord>,
    out: Seq<Dispatch>,
) -> bool {
    match event {
        RawWindowEvent::ScaleFactorChanged { size, scale } => {
            &&& post == if has_window(ws, w) {
                ws.update(window_at(ws, w), (WindowRecord { scale, ..ws[window_at(ws, w)] }))
            } else {
                ws
            }
            &&& out.len() == 1
            &&& out[0] == (Dispatch { window: w, event: Event::WindowSize(size, Some(scale)) })
        },
        RawWindowEvent::Resized { size } => {
            &&& post == ws
            &&& out.len() == 1
            &&& out[0] == (Dispatch {
                window: w,
                event: Event::WindowSize(size, Some(scale_of(ws, w))),
            })
        },
        RawWindowEvent::Moved { pos } => {
            &&& post == ws
            &&& out.len() == 1
            &&& out[0] == (Dispatch { window: w, event: Event::WindowMoved(pos) })
        },
        RawWindowEvent::CloseRequested => {
            &&& post == ws
            &&& out.len() == 1
            &&& out[0] == (Dispatch { window: w, event: Event::CloseRequested })
        },
        RawWindowEvent::Destroyed => {
            &&& post == ws
            &&& out.len() == 1
            &&& out[0] == (Dispatch { window: w, event: Event::Destroyed })
        },
        RawWindowEvent::GotFocus => {
            &&& post == ws
            &&& out.len() == 1
            &&& out[0] == (Dispatch { window: w, event: Event::GotFocus })
        },
        RawWindowEvent::LostFocus => {
            &&& post == ws
            &&& out.len() == 1
            &&& out[0] == (Dispatch { window: w, event: Event::LostFocus })
        },
        RawWindowEvent::ModifiersChanged { shift, ctrl, alt, meta } => {
            &&& post == if has_window(ws, w) {
                ws.update(
                    window_at(ws, w),
                    (WindowRecord {
                        mods: Modifiers(mods_from_flags(shift, ctrl, alt, meta)),
                        ..ws[window_at(ws, w)]
                    }),
                )
            } else {
                ws
            }
            &&& out.len() == 0
        },
        RawWindowEvent::MouseWheel { delta } => {
            &&& post == ws
            &&& out.len() == 1
            &&& out[0] == (Dispatch {
                window: w,
                event: Event::Wheel(
                    stateful_mouse_event(
                        pos_of(ws, w),
                        buttons_of(ws, w),
                        mods_of(ws, w),
                        MouseButton::NoButton,
                        delta,
                    ),
                ),
            })
        },
        RawWindowEvent::CursorMoved { pos } => {
            &&& post == if has_window(ws, w) {
                ws.update(
                    window_at(ws, w),
                    (WindowRecord { mouse_pos: pos, ..ws[window_at(ws, w)] }),
                )
            } else {
                ws
            }
            &&& out.len() == 1
            &&& out[0] == (Dispatch {
                window: w,
                event: Event::MouseMove(
                    stateful_mouse_event(
                        pos,
                        buttons_of(ws, w),
                        mods_of(ws, w),
                        MouseButton::NoButton,
                        Vec2 { x: 0, y: 0 },
                    ),
                ),
            })
        },
        RawWindowEvent::MouseInput { pressed, button } => {
            let newb = MouseButtons(
                if pressed {
                    buttons_of(ws, w).0 | button_bit(button)
                } else {
                    buttons_of(ws, w).0 & !button_bit(button)
                },
            );
            &&& post == if has_window(ws, w) {
                ws.update(
                    window_at(ws, w),
                    (WindowRecord { buttons: newb, ..ws[window_at(ws, w)] }),
                )
            } else {
                ws
            }
            &&& out.len() == 1
            &&& out[0] == (Dispatch {
                window: w,
                event: if pressed {
                    Event::MouseDown(
                        stateful_mouse_event(
                            pos_of(ws, w),
                            newb,
                            mods_of(ws, w),
                            button,
                            Vec2 { x: 0, y: 0 },
                        ),
                    )
                } else {
                    Event::MouseUp(
                        stateful_mouse_event(
                            pos_of(ws, w),
                            newb,
                            mods_of(ws, w),
                            button,
                            Vec2 { x: 0, y: 0 },
                        ),
                    )
                },
            })
        },
        RawWindowEvent::KeyboardInput { pressed, key, code, repeat, is_composing } => {
            &&& post == ws
            &&& out.len() == 1
            &&& out[0].window == w
            &&& match out[0].event {
                Event::KeyDown(e) => pressed && normalized_key_event(
                    pressed,
                    key,
                    code,
                    mods_of(ws, w),
                    repeat,
                    is_composing,
                    e,
                ),
                Event::KeyUp(e) => !pressed && normalized_key_event(
                    pressed,
                    key,
                    code,
                    mods_of(ws, w),
                    repeat,
                    is_composing,
                    e,
                ),
                _ => false,
            }
        },
        RawWindowEvent::VirtualKeyInput { pressed, vk, repeat } => {
            &&& post == ws
            &&& out.len() == 1
            &&& out[0].window == w
            &&& match out[0].event {
                Event::KeyDown(e) => pressed && vk_event_corresponds(
                    vk,
                    mods_of(ws, w),
                    KeyState::Down,
                    repeat,
                    e,
                ),
                Event::KeyUp(e) => !pressed && vk_event_corresponds(
                    vk,
                    mods_of(ws, w),
                    KeyState::Up,
                    repeat,
                    e,
                ),
                _ => false,
            }
        },
    }
}

impl Dispatcher {
    /// The dispatcher is well formed while its timers and window
    /// records are, and no two records describe one window.
    pub open spec fn wf(self) -> bool {
        &&& self.timers.wf()
        &&& forall|i: int| 0 <= i < self.windows@.len() ==> (#[trigger] self.windows@[i]).wf()
        &&& distinct_ids(self.windows@)
    }

    /// A fresh loop: no windows, no timers, waiting; `quit_on_last_close`
    /// makes the platform-dependent close policy explicit.
    pub fn new(quit_on_last_close: bool) -> (d: Dispatcher)
        ensures
            d.wf(),
            d.windows@.len() == 0,
            d.timers.entries@.len() == 0,
            d.control == ControlFlow::Wait,
            d.quit_on_last_close == quit_on_last_close,
    {
        Dispatcher {
            windows: Vec::new(),
            timers: TimerQueue::new(),
            control: ControlFlow::Wait,
            quit_on_last_close,
        }
    }

    /// How many windows the loop is tracking.
    pub fn windows_count(&self) -> (n: usize)
        ensures
            n == self.windows@.len(),
    {
        self.windows.len()
    }

    /// Start tracking a window that finished platform construction,
    /// with fresh per-window state.
    pub fn add_window(&mut self, id: WindowId)
        requires
            old(self).wf(),
            !has_window(old(self).windows@, id),
            old(self).windows@.len() < usize::MAX,
        ensures
            final(self).wf(),
            final(self).windows@.len() == old(self).windows@.len() + 1,
            final(self).windows@.subrange(0, old(self).windows@.len() as int) == old(
                self,
            ).windows@,
            final(self).windows@.last().id == id,
            final(self).windows@.last().mods.0 == 0,
            final(self).windows@.last().buttons.0 == 0,
            final(self).windows@.last().mouse_pos == (Point { x: 0, y: 0 }),
            final(self).windows@.last().scale.thousandths == 1000,
            has_window(final(self).windows@, id),
            final(self).timers == old(self).timers,
            final(self).control == old(self).control,
            final(self).quit_on_last_close == old(self).quit_on_last_close,
    {
        let ghost s = self.windows@;
        self.windows.push(WindowRecord::new(id));
        proof {
            let f2 = self.windows@;
            assert(f2.subrange(0, s.len() as int) =~= s);
            assert forall|i: int| 0 <= i < f2.len() implies (#[trigger] f2[i]).wf() by {
                if i < s.len() {
                    assert(f2[i] == s[i]);
                }
            }
            assert forall|a: int, b: int| 0 <= a < b < f2.len() implies f2[a].id != f2[b].id by {
                if b < s.len() {
                    assert(f2[a] == s[a] && f2[b] == s[b]);
                } else {
                    assert(f2[a] == s[a]);
                    if f2[a].id == id {
                        assert(has_window(s, id));
                    }
                }
            }
            assert(f2[f2.len() - 1].id == id);
        }
    }

    /// Stop tracking a window whose native resource was torn down: its
    /// record leaves, every other stays, and — under the explicit close
    /// policy — the loop stops once the last window is gone.
    pub fn remove_window(&mut self, id: WindowId)
        requires
            old(self).wf(),
        ensures
            final(self).wf(),
            !has_window(final(self).windows@, id),
            final(self).windows@ == if has_window(old(self).windows@, id) {
                old(self).windows@.remove(window_at(old(self).windows@, id))
            } else {
                old(self).windows@
            },
            final(self).control == if old(self).quit_on_last_close
                && final(self).windows@.len() == 0 && has_window(old(self).windows@, id) {
                ControlFlow::Exit
            } else {
                old(self).control
            },
            final(self).timers == old(self).timers,
            final(self).quit_on_last_close == old(self).quit_on_last_close,
    {
        let ghost s = self.windows@;
        match find_index(&self.windows, id) {
            Some(i) => {
                proof {
                    lemma_window_at(s, id, i as int);
                }
                self.windows.remove(i);
                proof {
                    let f2 = self.windows@;
                    assert forall|k: int| 0 <= k < f2.len() implies #[trigger] f2[k].id != id by {
                        if k < i {
                            assert(f2[k] == s[k]);
                        } else {
                            assert(f2[k] == s[k + 1]);
                        }
                    }
                    assert(!has_window(f2, id));
                    assert forall|k: int| 0 <= k < f2.len() implies (#[trigger] f2[k]).wf() by {
                        if k < i {
                            assert(f2[k] == s[k]);
                        } else {
                            assert(f2[k] == s[k + 1]);
                        }
                    }
                    assert forall|a: int, b: int|
                        0 <= a < b < f2.len() implies f2[a].id != f2[b].id by {
                        let a0: int = if a < i {
                            a
                        } else {
                            a + 1
                        };
                        let b0: int = if b < i {
                            b
                        } else {
                            b + 1
                        };
                        assert(f2[a] == s[a0] && f2[b] == s[b0]);
                    }
                }
                if self.windows.len() == 0 && self.quit_on_last_close {
                    self.control = ControlFlow::Exit;
                }
            },
            None => {},
        }
    }

    /// Process one woken raw occurrence: normalize it into at most one
    /// event with the per-window state threaded in, move the state as
    /// the transition relation says, and hand back the dispatches owed
    /// to the application, in order.
    pub fn step(&mut self, raw: RawEvent, now: u64) -> (out: Vec<Dispatch>)
        requires
            old(self).wf(),
            old(self).timers.next_seq < u64::MAX,
            old(self).timers.entries@.len() < usize::MAX,
            raw matches RawEvent::User(WinitEvent::Timer(_, _, delay)) ==> now + delay
                <= u64::MAX,
        ensures
            final(self).wf(),
            step_rel(*old(self), now, raw, *final(self), out@),
    {
        let mut out: Vec<Dispatch> = Vec::new();
        match raw {
            RawEvent::Init => {
                self.control = ControlFlow::Wait;
            },
            RawEvent::ResumeTimeReached => {
                match self.timers.fire_due(now) {
                    Some(entry) => {
                        out.push(
                            Dispatch { window: entry.window, event: Event::Timer(entry.token) },
                        );
                    },
                    None => {},
                }
                self.control = self.wait_control();
            },
            RawEvent::User(user) => match user {
                WinitEvent::Idle(token) => {
                    out.push(Dispatch { window: WindowId(0), event: Event::Idle(token) });
                },
                WinitEvent::Timer(window, token, delay) => {
                    self.timers.register(now + delay, window, token);
                    self.control = self.wait_control();
                },
                WinitEvent::NewWindow => {},
            },
            RawEvent::LoopDestroyed => {
                out.push(Dispatch { window: WindowId(0), event: Event::ApplicationQuit });
            },
            RawEvent::RedrawRequested { .. } => {},
            RawEvent::Window { window, event } => {
                let d = self.window_step(window, event);
                match d {
                    Some(d) => {
                        out.push(d);
                    },
                    None => {},
                }
            },
        }
        out
    }

    /// The wait the loop computes from its pending timers.
    fn wait_control(&self) -> (c: ControlFlow)
        requires
            self.timers.wf(),
        ensures
            c == control_for_timers(self.timers.entries@),
    {
        match self.timers.next_deadline() {
            Some(d) => ControlFlow::WaitUntil(d),
            None => ControlFlow::Wait,
        }
    }

    /// Handle one window-level occurrence: thread the stored state into
    /// the normalized event, update the addressed record, and hand back
    /// the one dispatch owed, if the occurrence produces one.
    fn window_step(&mut self, w: WindowId, event: RawWindowEvent) -> (d: Option<Dispatch>)
        requires
            old(self).wf(),
        ensures
            final(self).wf(),
            final(self).timers == old(self).timers,
            final(self).control == old(self).control,
            final(self).quit_on_last_close == old(self).quit_on_last_close,
            window_step_rel(
                old(self).windows@,
                w,
                event,
                final(self).windows@,
                match d {
                    Some(d) => seq![d],
                    None => Seq::empty(),
                },
            ),
    {
        let ghost ws = self.windows@;
        let found = find_index(&self.windows, w);
        proof {
            if let Some(i) = found {
                lemma_window_at(ws, w, i as int);
            }
        }
        let mods: Modifiers = match found {
            Some(i) => self.windows[i].mods,
            None => Modifiers(0),
        };
        let buttons: MouseButtons = match found {
            Some(i) => self.windows[i].buttons,
            None => MouseButtons(0),
        };
        let pos: Point = match found {
            Some(i) => self.windows[i].mouse_pos,
            None => Point { x: 0, y: 0 },
        };
        let scale: Scale = match found {
            Some(i) => self.windows[i].scale,
            None => Scale { thousandths: 1000 },
        };
        match event {
            RawWindowEvent::ScaleFactorChanged { size, scale } => {
                if let Some(i) = found {
                    self.windows[i].scale = scale;
                    proof {
                        lemma_update_keeps_wf(ws, i as int, self.windows@[i as int]);
                    }
                }
                Some(Dispatch { window: w, event: Event::WindowSize(size, Some(scale)) })
            },
            RawWindowEvent::Resized { size } => Some(
                Dispatch { window: w, event: Event::WindowSize(size, Some(scale)) },
            ),
            RawWindowEvent::Moved { pos } => Some(
                Dispatch { window: w, event: Event::WindowMoved(pos) },
            ),
            RawWindowEvent::CloseRequested => Some(
                Dispatch { window: w, event: Event::CloseRequested },
            ),
            RawWindowEvent::Destroyed => Some(Dispatch { window: w, event: Event::Destroyed }),
            RawWindowEvent::GotFocus => Some(Dispatch { window: w, event: Event::GotFocus }),
            RawWindowEvent::LostFocus => Some(Dispatch { window: w, event: Event::LostFocus }),
            RawWindowEvent::ModifiersChanged { shift, ctrl, alt, meta } => {
                let bits: u32 = (if shift {
                    SHIFT_BIT
                } else {
                    0
                }) | (if ctrl {
                    CONTROL_BIT
                } else {
                    0
                }) | (if alt {
                    ALT_BIT
                } else {
                    0
                }) | (if meta {
                    META_BIT
                } else {
                    0
                });
                if let Some(i) = found {
                    self.windows[i].mods = Modifiers(bits);
                    proof {
                        lemma_update_keeps_wf(ws, i as int, self.windows@[i as int]);
                    }
                }
                None
            },
            RawWindowEvent::MouseWheel { delta } => Some(
                Dispatch {
                    window: w,
                    event: Event::Wheel(
                        make_mouse_event(pos, buttons, mods, MouseButton::NoButton, delta),
                    ),
                },
            ),
            RawWindowEvent::CursorMoved { pos: newpos } => {
                if let Some(i) = found {
                    self.windows[i].mouse_pos = newpos;
                    proof {
                        lemma_update_keeps_wf(ws, i as int, self.windows@[i as int]);
                    }
                }
                Some(
                    Dispatch {
                        window: w,
                        event: Event::MouseMove(
                            make_mouse_event(
                                newpos,
                                buttons,
                                mods,
                                MouseButton::NoButton,
                                Vec2 { x: 0, y: 0 },
                            ),
                        ),
                    },
                )
            },
            RawWindowEvent::MouseInput { pressed, button } => {
                let mut newb = buttons;
                if pressed {
                    newb.insert(button);
                } else {
                    newb.remove(button);
                }
                if let Some(i) = found {
                    self.windows[i].buttons = newb;
                    proof {
                        lemma_update_keeps_wf(ws, i as int, self.windows@[i as int]);
                    }
                }
                let me = make_mouse_event(pos, newb, mods, button, Vec2 { x: 0, y: 0 });
                Some(
                    Dispatch {
                        window: w,
                        event: if pressed {
                            Event::MouseDown(me)
                        } else {
                            Event::MouseUp(me)
                        },
                    },
                )
            },
            RawWindowEvent::KeyboardInput { pressed, key, code, repeat, is_composing } => {
                let e = KeyEvent {
                    state: if pressed {
                        KeyState::Down
                    } else {
                        KeyState::Up
                    },
                    key: winit_key(key),
                    code,
                    location: code_location(code),
                    mods,
                    repeat,
                    is_composing,
                };
                Some(
                    Dispatch {
                        window: w,
                        event: if pressed {
                            Event::KeyDown(e)
                        } else {
                            Event::KeyUp(e)
                        },
                    },
                )
            },
            RawWindowEvent::VirtualKeyInput { pressed, vk, repeat } => {
                let state = if pressed {
                    KeyState::Down
                } else {
                    KeyState::Up
                };
                let e = translate_virtual(vk, mods, state, repeat);
                Some(
                    Dispatch {
                        window: w,
                        event: if pressed {
                            Event::KeyDown(e)
                        } else {
                            Event::KeyUp(e)
                        },
                    },
                )
            },
        }
    }
}

/// The mouse event built for one occurrence, executable form.
fn make_mouse_event(
    pos: Point,
    buttons: MouseButtons,
    mods: Modifiers,
    button: MouseButton,
    delta: Vec2,
) -> (e: MouseEvent)
    ensures
        e == stateful_mouse_event(pos, buttons, mods, button, delta),
{
    MouseEvent {
        pos,
        window_pos: pos,
        buttons,
        mods,
        count: 0,
        focus: false,
        button,
        wheel_delta: delta,
    }
}

/// The index of the record describing `id`, executable form.
fn find_index(ws: &Vec<WindowRecord>, id: WindowId) -> (r: Option<usize>)
    ensures
        match r {
            Some(i) => i < ws@.len() && ws@[i as int].id == id,
            None => !has_window(ws@, id),
        },
{
    let n = ws.len();
    let mut i: usize = 0;
    while i < n
        invariant
            0 <= i <= n,
            n == ws@.len(),
            forall|j: int| 0 <= j < i ==> ws@[j].id != id,
        decreases n - i,
    {
        if ws[i].id.0 == id.0 {
            return Some(i);
        }
        i = i + 1;
    }
    proof {
        if has_window(ws@, id) {
            let j = choose|j: int| 0 <= j < ws@.len() && ws@[j].id == id;
            assert(ws@[j].id != id);
        }
    }
    None
}

/// With distinct ids, the record found at `i` is the one the spec-level
/// index names.
proof fn lemma_window_at(ws: Seq<WindowRecord>, id: WindowId, i: int)
    requires
        distinct_ids(ws),
        0 <= i < ws.len(),
        ws[i].id == id,
    ensures
        has_window(ws, id),
        window_at(ws, id) == i,
{
    assert(has_window(ws, id));
    let j = window_at(ws, id);
    if j != i {
        if j < i {
            assert(ws[j].id != ws[i].id);
        } else {
            assert(ws[i].id != ws[j].id);
        }
    }
}

/// Updating one record in place, without touching its id or registry,
/// keeps the dispatcher's window invariants.
proof fn lemma_update_keeps_wf(ws: Seq<WindowRecord>, i: int, r: WindowRecord)
    requires
        0 <= i < ws.len(),
        forall|k: int| 0 <= k < ws.len() ==> (#[trigger] ws[k]).wf(),
        distinct_ids(ws),
        r.id == ws[i].id,
        r.wf(),
    ensures
        forall|k: int| 0 <= k < ws.update(i, r).len() ==> (#[trigger] ws.update(i, r)[k]).wf(),
        distinct_ids(ws.update(i, r)),
{
    let f2 = ws.update(i, r);
    assert forall|k: int| 0 <= k < f2.len() implies (#[trigger] f2[k]).wf() by {
        if k != i {
            assert(f2[k] == ws[k]);
        }
    }
    assert forall|a: int, b: int| 0 <= a < b < f2.len() implies f2[a].id != f2[b].id by {
        assert(f2[a].id == ws[a].id && f2[b].id == ws[b].id);
    }
}

} // verus!

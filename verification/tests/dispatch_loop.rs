use druid_shell::dispatch::ControlFlow;
use druid_shell::dispatch::Dispatcher;
use druid_shell::dispatch::RawEvent;
use druid_shell::dispatch::RawWindowEvent;
use druid_shell::dispatch::WinitEvent;
use druid_shell::event::Event;
use druid_shell::geometry::Point;
use druid_shell::geometry::Scale;
use druid_shell::geometry::Size;
use druid_shell::geometry::Vec2;
use druid_shell::keys::Key;
use druid_shell::keys::RawKey;
use druid_shell::codes::Code;
use druid_shell::keyboard::KeyState;
use druid_shell::keyboard::Location;
use druid_shell::mouse::MouseButton;
use druid_shell::tokens::IdleToken;
use druid_shell::tokens::TimerToken;
use druid_shell::tokens::WindowId;

fn win() -> WindowId {
    WindowId(1)
}

fn loop_with_one_window() -> Dispatcher {
    let mut d = Dispatcher::new(true);
    d.add_window(win());
    d
}

#[test]
fn timers_fire_in_deadline_order_regardless_of_registration_order() {
    // Register deadlines d2, d3, d1 out of order; they must come back
    // as d1, d2, d3.
    let mut d = loop_with_one_window();
    let t1 = TimerToken::from_raw(11);
    let t2 = TimerToken::from_raw(22);
    let t3 = TimerToken::from_raw(33);
    assert!(d.step(RawEvent::User(WinitEvent::Timer(win(), t2, 20)), 0).is_empty());
    assert!(d.step(RawEvent::User(WinitEvent::Timer(win(), t3, 30)), 0).is_empty());
    assert!(d.step(RawEvent::User(WinitEvent::Timer(win(), t1, 10)), 0).is_empty());
    // The loop always waits for the earliest pending deadline.
    assert_eq!(d.control, ControlFlow::WaitUntil(10));
    let fired1 = d.step(RawEvent::ResumeTimeReached, 10);
    assert_eq!(fired1.len(), 1);
    assert_eq!(fired1[0].event, Event::Timer(t1));
    assert_eq!(d.control, ControlFlow::WaitUntil(20));
    let fired2 = d.step(RawEvent::ResumeTimeReached, 20);
    assert_eq!(fired2[0].event, Event::Timer(t2));
    let fired3 = d.step(RawEvent::ResumeTimeReached, 30);
    assert_eq!(fired3[0].event, Event::Timer(t3));
    assert_eq!(d.control, ControlFlow::Wait);
}

#[test]
fn equal_deadlines_fire_in_registration_order() {
    let mut d = loop_with_one_window();
    let first = TimerToken::from_raw(5);
    let second = TimerToken::from_raw(6);
    d.step(RawEvent::User(WinitEvent::Timer(win(), first, 15)), 0);
    d.step(RawEvent::User(WinitEvent::Timer(win(), second, 15)), 0);
    let a = d.step(RawEvent::ResumeTimeReached, 15);
    let b = d.step(RawEvent::ResumeTimeReached, 15);
    assert_eq!(a[0].event, Event::Timer(first));
    assert_eq!(b[0].event, Event::Timer(second));
}

#[test]
fn zero_delay_timer_fires_exactly_once() {
    let mut d = loop_with_one_window();
    let t = TimerToken::from_raw(77);
    let out = d.step(RawEvent::User(WinitEvent::Timer(win(), t, 0)), 100);
    assert!(out.is_empty());
    assert_eq!(d.control, ControlFlow::WaitUntil(100));
    let fired = d.step(RawEvent::ResumeTimeReached, 100);
    assert_eq!(fired.len(), 1);
    assert_eq!(fired[0].event, Event::Timer(t));
    assert_eq!(fired[0].window, win());
    // Nothing is pending any more: no second delivery, ever.
    let again = d.step(RawEvent::ResumeTimeReached, 1000);
    assert!(again.is_empty());
    assert_eq!(d.control, ControlFlow::Wait);
}

#[test]
fn no_timer_fires_before_its_deadline() {
    let mut d = loop_with_one_window();
    let t = TimerToken::from_raw(3);
    d.step(RawEvent::User(WinitEvent::Timer(win(), t, 50)), 0);
    let early = d.step(RawEvent::ResumeTimeReached, 49);
    assert!(early.is_empty());
    let due = d.step(RawEvent::ResumeTimeReached, 50);
    assert_eq!(due.len(), 1);
}

#[test]
fn mouse_press_then_release_restores_empty_buttons() {
    let mut d = loop_with_one_window();
    let down = d.step(
        RawEvent::Window {
            window: win(),
            event: RawWindowEvent::MouseInput { pressed: true, button: MouseButton::Left },
        },
        0,
    );
    assert_eq!(down.len(), 1);
    match &down[0].event {
        Event::MouseDown(me) => {
            assert!(me.buttons.contains(MouseButton::Left));
            assert!(!me.buttons.contains(MouseButton::Right));
            assert!(!me.buttons.contains(MouseButton::Middle));
            assert_eq!(me.button, MouseButton::Left);
        },
        other => panic!("expected a mouse-down dispatch, got {:?}", other),
    }
    let up = d.step(
        RawEvent::Window {
            window: win(),
            event: RawWindowEvent::MouseInput { pressed: false, button: MouseButton::Left },
        },
        0,
    );
    match &up[0].event {
        Event::MouseUp(me) => {
            assert!(me.buttons.is_empty());
            assert_eq!(me.button, MouseButton::Left);
        },
        other => panic!("expected a mouse-up dispatch, got {:?}", other),
    }
}

#[test]
fn modifier_state_is_threaded_into_later_events() {
    let mut d = loop_with_one_window();
    let none = d.step(
        RawEvent::Window {
            window: win(),
            event: RawWindowEvent::ModifiersChanged {
                shift: true,
                ctrl: false,
                alt: false,
                meta: true,
            },
        },
        0,
    );
    // A modifiers change dispatches nothing itself.
    assert!(none.is_empty());
    let out = d.step(
        RawEvent::Window {
            window: win(),
            event: RawWindowEvent::VirtualKeyInput {
                pressed: true,
                vk: druid_shell::vk::VirtualKey::KeyA,
                repeat: false,
            },
        },
        0,
    );
    match &out[0].event {
        Event::KeyDown(e) => {
            assert_eq!(e.key, Key::Character("A".to_string()));
            assert!(e.mods.shift());
            assert!(e.mods.meta());
            assert!(!e.mods.ctrl());
        },
        other => panic!("expected a key-down dispatch, got {:?}", other),
    }
}

#[test]
fn cursor_position_is_stored_and_reused() {
    let mut d = loop_with_one_window();
    let moved = d.step(
        RawEvent::Window {
            window: win(),
            event: RawWindowEvent::CursorMoved { pos: Point::new(30, 40) },
        },
        0,
    );
    match &moved[0].event {
        Event::MouseMove(me) => {
            assert_eq!(me.pos, Point::new(30, 40));
            assert!(me.buttons.is_empty());
        },
        other => panic!("expected a mouse-move dispatch, got {:?}", other),
    }
    // The wheel callback carries no position; the stored one is used.
    let wheel = d.step(
        RawEvent::Window {
            window: win(),
            event: RawWindowEvent::MouseWheel { delta: Vec2::new(0, -32) },
        },
        0,
    );
    match &wheel[0].event {
        Event::Wheel(me) => {
            assert_eq!(me.pos, Point::new(30, 40));
            assert_eq!(me.wheel_delta, Vec2::new(0, -32));
            assert_eq!(me.button, MouseButton::NoButton);
        },
        other => panic!("expected a wheel dispatch, got {:?}", other),
    }
}

#[test]
fn keyboard_input_is_normalized() {
    let mut d = loop_with_one_window();
    let out = d.step(
        RawEvent::Window {
            window: win(),
            event: RawWindowEvent::KeyboardInput {
                pressed: true,
                key: RawKey::Enter,
                code: Code::NumpadEnter,
                repeat: false,
                is_composing: false,
            },
        },
        0,
    );
    match &out[0].event {
        Event::KeyDown(e) => {
            assert_eq!(e.key, Key::Enter);
            assert_eq!(e.code, Code::NumpadEnter);
            assert_eq!(e.location, Location::Numpad);
            assert_eq!(e.state, KeyState::Down);
        },
        other => panic!("expected a key-down dispatch, got {:?}", other),
    }
    let up = d.step(
        RawEvent::Window {
            window: win(),
            event: RawWindowEvent::KeyboardInput {
                pressed: false,
                key: RawKey::Enter,
                code: Code::NumpadEnter,
                repeat: false,
                is_composing: false,
            },
        },
        0,
    );
    assert!(matches!(&up[0].event, Event::KeyUp(_)));
}

#[test]
fn window_level_occurrences_dispatch_one_event_each() {
    let mut d = loop_with_one_window();
    let size = Size::new(800, 600);
    let resized = d.step(
        RawEvent::Window { window: win(), event: RawWindowEvent::Resized { size } },
        0,
    );
    assert_eq!(resized[0].event, Event::WindowSize(size, Some(Scale::new(1000))));
    let scaled = d.step(
        RawEvent::Window {
            window: win(),
            event: RawWindowEvent::ScaleFactorChanged { size, scale: Scale::new(2000) },
        },
        0,
    );
    assert_eq!(scaled[0].event, Event::WindowSize(size, Some(Scale::new(2000))));
    // The new scale is remembered for the next plain resize.
    let resized2 = d.step(
        RawEvent::Window { window: win(), event: RawWindowEvent::Resized { size } },
        0,
    );
    assert_eq!(resized2[0].event, Event::WindowSize(size, Some(Scale::new(2000))));
    let moved = d.step(
        RawEvent::Window { window: win(), event: RawWindowEvent::Moved { pos: Point::new(5, 6) } },
        0,
    );
    assert_eq!(moved[0].event, Event::WindowMoved(Point::new(5, 6)));
    let close = d.step(
        RawEvent::Window { window: win(), event: RawWindowEvent::CloseRequested },
        0,
    );
    assert_eq!(close[0].event, Event::CloseRequested);
    let focus = d.step(RawEvent::Window { window: win(), event: RawWindowEvent::GotFocus }, 0);
    assert_eq!(focus[0].event, Event::GotFocus);
    let blur = d.step(RawEvent::Window { window: win(), event: RawWindowEvent::LostFocus }, 0);
    assert_eq!(blur[0].event, Event::LostFocus);
}

#[test]
fn idle_and_quit_are_application_level() {
    let mut d = loop_with_one_window();
    let idle = d.step(RawEvent::User(WinitEvent::Idle(IdleToken::new(9))), 0);
    assert_eq!(idle.len(), 1);
    assert_eq!(idle[0].event, Event::Idle(IdleToken::new(9)));
    assert_eq!(idle[0].window, WindowId(0));
    let quit = d.step(RawEvent::LoopDestroyed, 0);
    assert_eq!(quit[0].event, Event::ApplicationQuit);
}

#[test]
fn init_starts_waiting_and_redraw_produces_no_event() {
    let mut d = Dispatcher::new(false);
    assert!(d.step(RawEvent::Init, 0).is_empty());
    assert_eq!(d.control, ControlFlow::Wait);
    assert!(d.step(RawEvent::RedrawRequested { window: win() }, 0).is_empty());
    assert!(d.step(RawEvent::User(WinitEvent::NewWindow), 0).is_empty());
}

#[test]
fn closing_the_last_window_stops_the_loop_under_the_policy() {
    let mut d = loop_with_one_window();
    assert_eq!(d.windows_count(), 1);
    d.remove_window(win());
    assert_eq!(d.windows_count(), 0);
    assert_eq!(d.control, ControlFlow::Exit);

    // Without the policy the loop keeps running with zero windows.
    let mut keep = Dispatcher::new(false);
    keep.add_window(win());
    keep.remove_window(win());
    assert_eq!(keep.control, ControlFlow::Wait);
}

#[test]
fn events_for_unknown_windows_use_default_state() {
    let mut d = Dispatcher::new(true);
    let out = d.step(
        RawEvent::Window {
            window: WindowId(99),
            event: RawWindowEvent::MouseWheel { delta: Vec2::new(1, 2) },
        },
        0,
    );
    match &out[0].event {
        Event::Wheel(me) => {
            assert_eq!(me.pos, Point::new(0, 0));
            assert!(me.buttons.is_empty());
            assert!(me.mods.is_empty());
        },
        other => panic!("expected a wheel dispatch, got {:?}", other),
    }
}

#[test]
fn stale_wake_with_nothing_pending_is_ignored() {
    let mut d = Dispatcher::new(true);
    let out = d.step(RawEvent::ResumeTimeReached, 500);
    assert!(out.is_empty());
    assert_eq!(d.control, ControlFlow::Wait);
}

#[test]
fn unknown_window_updates_nothing() {
    let mut d = loop_with_one_window();
    // State changes addressed to an unknown window are dropped...
    let none = d.step(
        RawEvent::Window {
            window: WindowId(42),
            event: RawWindowEvent::ModifiersChanged {
                shift: true,
                ctrl: true,
                alt: true,
                meta: true,
            },
        },
        0,
    );
    assert!(none.is_empty());
    // ...so the known window still reports empty modifiers.
    let out = d.step(
        RawEvent::Window {
            window: win(),
            event: RawWindowEvent::KeyboardInput {
                pressed: true,
                key: RawKey::Tab,
                code: Code::Tab,
                repeat: false,
                is_composing: false,
            },
        },
        0,
    );
    match &out[0].event {
        Event::KeyDown(e) => assert!(e.mods.is_empty()),
        other => panic!("expected a key-down dispatch, got {:?}", other),
    }
}

#[test]
fn destroyed_window_dispatches_then_can_be_removed() {
    let mut d = loop_with_one_window();
    let out = d.step(
        RawEvent::Window { window: win(), event: RawWindowEvent::Destroyed },
        0,
    );
    assert_eq!(out[0].event, Event::Destroyed);
    assert_eq!(d.windows_count(), 1);
    d.remove_window(win());
    assert_eq!(d.windows_count(), 0);
    // Removing an untracked window is harmless.
    d.remove_window(win());
    assert_eq!(d.windows_count(), 0);
}

#[test]
fn repeat_and_composition_flags_carry_through() {
    let mut d = loop_with_one_window();
    let out = d.step(
        RawEvent::Window {
            window: win(),
            event: RawWindowEvent::KeyboardInput {
                pressed: true,
                key: RawKey::Character("q".to_string()),
                code: Code::KeyQ,
                repeat: true,
                is_composing: true,
            },
        },
        0,
    );
    match &out[0].event {
        Event::KeyDown(e) => {
            assert_eq!(e.key, Key::Character("q".to_string()));
            assert!(e.repeat);
            assert!(e.is_composing);
        },
        other => panic!("expected a key-down dispatch, got {:?}", other),
    }
}

use druid_shell::modifiers::Modifiers;
use druid_shell::modifiers::ALL_BITS;
use druid_shell::tokens::Counter;
use druid_shell::tokens::FileDialogToken;
use druid_shell::tokens::IdleToken;
use druid_shell::tokens::TextFieldToken;
use druid_shell::tokens::TimerToken;
use druid_shell::tokens::WindowId;

#[test]
fn empty_contains_nothing() {
    assert!(!Modifiers::empty().contains(Modifiers::SHIFT()));
    assert!(!Modifiers::empty().contains(Modifiers::CONTROL()));
    assert!(Modifiers::empty().is_empty());
    assert!(!Modifiers::empty().shift());
}

#[test]
fn set_and_unset_shift() {
    let mut mods = Modifiers::empty();
    mods.set(Modifiers::SHIFT(), true);
    assert!(mods.shift());
    assert!(mods.contains(Modifiers::SHIFT()));
    assert!(!mods.is_empty());
    mods.set(Modifiers::SHIFT(), false);
    assert!(mods.is_empty());
    assert!(!mods.shift());
}

#[test]
fn set_does_not_perturb_other_flags() {
    let mut mods = Modifiers::empty();
    mods.set(Modifiers::CONTROL(), true);
    mods.set(Modifiers::SHIFT(), true);
    mods.set(Modifiers::SHIFT(), false);
    assert!(mods.ctrl());
    assert!(!mods.shift());
    assert!(!mods.is_empty());
}

#[test]
fn union_contains_both_parts() {
    let a = Modifiers::ALT();
    let b = Modifiers::META();
    let both = a.bitor(b);
    assert!(both.contains(a));
    assert!(both.contains(b));
    assert!(both.alt());
    assert!(both.meta());
    assert!(!both.shift());
}

#[test]
fn bit_operations() {
    let a = Modifiers::SHIFT().bitor(Modifiers::CONTROL());
    let b = Modifiers::CONTROL().bitor(Modifiers::ALT());
    assert_eq!(a.bitand(b), Modifiers::CONTROL());
    assert_eq!(a.bitxor(b), Modifiers::SHIFT().bitor(Modifiers::ALT()));
    let inverted = Modifiers::empty().not();
    assert_eq!(inverted.raw(), ALL_BITS);
    assert!(inverted.contains(Modifiers::SHIFT()));
    assert!(inverted.not().is_empty());
    assert_eq!(Modifiers::default(), Modifiers::empty());
    assert_eq!(Modifiers::SHIFT().raw(), 0x200);
}

#[test]
fn convenience_predicates() {
    assert!(Modifiers::SHIFT().shift());
    assert!(Modifiers::CONTROL().ctrl());
    assert!(Modifiers::ALT().alt());
    assert!(Modifiers::META().meta());
    assert!(!Modifiers::CAPS_LOCK().shift());
}

#[test]
fn timer_tokens_are_distinct_and_never_invalid() {
    let mut counter = Counter::new();
    let mut seen: Vec<u64> = Vec::new();
    for _ in 0..100 {
        let t = TimerToken::next(&mut counter);
        assert_ne!(t, TimerToken::INVALID());
        assert_ne!(t.into_raw(), 0);
        assert!(!seen.contains(&t.into_raw()));
        seen.push(t.into_raw());
    }
}

#[test]
fn text_field_tokens_are_distinct_and_never_invalid() {
    let mut counter = Counter::new();
    let mut seen: Vec<u64> = Vec::new();
    for _ in 0..100 {
        let t = TextFieldToken::next(&mut counter);
        assert_ne!(t, TextFieldToken::INVALID());
        assert!(!seen.contains(&t.into_raw()));
        seen.push(t.into_raw());
    }
}

#[test]
fn file_dialog_tokens_are_distinct_and_never_invalid() {
    let mut counter = Counter::new();
    let mut seen: Vec<u64> = Vec::new();
    for _ in 0..100 {
        let t = FileDialogToken::next(&mut counter);
        assert_ne!(t, FileDialogToken::INVALID());
        assert!(!seen.contains(&t.into_raw()));
        seen.push(t.into_raw());
    }
}

#[test]
fn window_ids_are_distinct() {
    let mut counter = Counter::new();
    let a = WindowId::next(&mut counter);
    let b = WindowId::next(&mut counter);
    let c = WindowId::next(&mut counter);
    assert_ne!(a, b);
    assert_ne!(b, c);
    assert_ne!(a, c);
}

#[test]
fn token_round_trips() {
    assert_eq!(TimerToken::from_raw(7).into_raw(), 7);
    assert_eq!(TextFieldToken::from_raw(9).into_raw(), 9);
    assert_eq!(FileDialogToken::from_raw(11).into_raw(), 11);
    assert_eq!(IdleToken::new(42), IdleToken::new(42));
    assert_ne!(IdleToken::new(1), IdleToken::new(2));
}

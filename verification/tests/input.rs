use carf::input::{
    apply_modifier, bump, translate_key_event, GlobalKeyEvent, KeyAction, ModifierCounters,
    ModifierKey, Modifiers, RawEventKind, RawKeyEvent,
};

fn key(kind: RawEventKind, modifier: Option<ModifierKey>, name: &str) -> RawKeyEvent {
    RawKeyEvent { kind, modifier, key: name.to_string(), name: None }
}

#[test]
fn new_counters_hold_nothing() {
    let counters = ModifierCounters::new();
    assert_eq!(counters, ModifierCounters { ctrl: 0, shift: 0, alt: 0, meta: 0 });
    assert_eq!(
        counters.snapshot(),
        Modifiers { ctrl: false, shift: false, alt: false, meta: false }
    );
}

#[test]
fn snapshot_reports_what_is_held() {
    let counters = ModifierCounters { ctrl: 2, shift: 0, alt: 1, meta: 0 };
    assert_eq!(counters.snapshot(), Modifiers { ctrl: true, shift: false, alt: true, meta: false });
}

#[test]
fn bump_counts_up_and_down() {
    let mut counter = 0u8;
    bump(&mut counter, true);
    assert_eq!(counter, 1);
    bump(&mut counter, true);
    assert_eq!(counter, 2);
    bump(&mut counter, false);
    assert_eq!(counter, 1);
}

#[test]
fn bump_stops_at_both_ends() {
    let mut counter = 0u8;
    bump(&mut counter, false);
    assert_eq!(counter, 0);
    let mut counter = 255u8;
    bump(&mut counter, true);
    assert_eq!(counter, 255);
    bump(&mut counter, false);
    assert_eq!(counter, 254);
}

#[test]
fn left_and_right_keys_share_a_counter() {
    let mut counters = ModifierCounters::new();
    apply_modifier(&mut counters, ModifierKey::ControlLeft, true);
    apply_modifier(&mut counters, ModifierKey::ControlRight, true);
    apply_modifier(&mut counters, ModifierKey::ShiftRight, true);
    apply_modifier(&mut counters, ModifierKey::AltGr, true);
    apply_modifier(&mut counters, ModifierKey::Alt, true);
    apply_modifier(&mut counters, ModifierKey::MetaLeft, true);
    assert_eq!(counters, ModifierCounters { ctrl: 2, shift: 1, alt: 2, meta: 1 });
    apply_modifier(&mut counters, ModifierKey::ControlLeft, false);
    apply_modifier(&mut counters, ModifierKey::ShiftLeft, false);
    apply_modifier(&mut counters, ModifierKey::MetaRight, false);
    assert_eq!(counters, ModifierCounters { ctrl: 1, shift: 0, alt: 2, meta: 0 });
}

#[test]
fn a_key_press_is_reported_with_the_modifiers_held() {
    let mut counters = ModifierCounters::new();
    let shown = translate_key_event(
        &mut counters,
        key(RawEventKind::KeyPress, Some(ModifierKey::ShiftLeft), "ShiftLeft"),
    );
    assert_eq!(
        shown,
        Some(GlobalKeyEvent {
            action: KeyAction::Press,
            key: "ShiftLeft".to_string(),
            name: None,
            modifiers: Modifiers { ctrl: false, shift: true, alt: false, meta: false },
        })
    );
    let shown = translate_key_event(
        &mut counters,
        RawKeyEvent {
            kind: RawEventKind::KeyPress,
            modifier: None,
            key: "KeyA".to_string(),
            name: Some("A".to_string()),
        },
    );
    assert_eq!(
        shown,
        Some(GlobalKeyEvent {
            action: KeyAction::Press,
            key: "KeyA".to_string(),
            name: Some("A".to_string()),
            modifiers: Modifiers { ctrl: false, shift: true, alt: false, meta: false },
        })
    );
    let shown = translate_key_event(
        &mut counters,
        key(RawEventKind::KeyRelease, Some(ModifierKey::ShiftLeft), "ShiftLeft"),
    );
    assert_eq!(
        shown,
        Some(GlobalKeyEvent {
            action: KeyAction::Release,
            key: "ShiftLeft".to_string(),
            name: None,
            modifiers: Modifiers { ctrl: false, shift: false, alt: false, meta: false },
        })
    );
}

#[test]
fn other_events_are_neither_reported_nor_counted() {
    let mut counters = ModifierCounters { ctrl: 1, shift: 0, alt: 0, meta: 0 };
    let shown = translate_key_event(
        &mut counters,
        key(RawEventKind::Other, Some(ModifierKey::ControlLeft), ""),
    );
    assert_eq!(shown, None);
    assert_eq!(counters, ModifierCounters { ctrl: 1, shift: 0, alt: 0, meta: 0 });
}

#[test]
fn a_key_event_can_be_copied() {
    let event = GlobalKeyEvent {
        action: KeyAction::Release,
        key: "KeyQ".to_string(),
        name: Some("q".to_string()),
        modifiers: Modifiers { ctrl: true, shift: false, alt: false, meta: true },
    };
    assert_eq!(event.clone(), event);
}

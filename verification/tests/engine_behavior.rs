use termpick::engine::Engine;
use termpick::events::InputEvent;

fn add(e: &mut Engine<String>, s: &str) -> bool {
    e.add_item(s.to_string())
}

#[test]
fn down_down_enter_selects_third() {
    // prompt "Pick one", items alpha/beta/gamma, user presses Down, Down, Enter
    let mut e: Engine<String> = Engine::new();
    assert!(add(&mut e, "alpha"));
    assert!(add(&mut e, "beta"));
    assert!(add(&mut e, "gamma"));
    e.tick(None, Some(InputEvent::MoveDown));
    e.tick(None, Some(InputEvent::MoveDown));
    assert_eq!(e.cursor_index(), 2);
    e.tick(None, Some(InputEvent::Confirm));
    assert!(e.is_done());
    assert_eq!(e.take_selected(), "gamma".to_string());
}

#[test]
fn enter_with_no_items_keeps_running() {
    // confirm while empty is a no-op and does not fire later
    let mut e: Engine<String> = Engine::new();
    e.tick(None, Some(InputEvent::Confirm));
    assert!(!e.is_done());
    assert!(add(&mut e, "late"));
    e.tick(None, None);
    assert!(!e.is_done(), "a confirm pressed while empty must not leak");
    e.tick(None, Some(InputEvent::Confirm));
    assert!(e.is_done());
    assert_eq!(e.take_selected(), "late".to_string());
}

#[test]
fn enter_right_after_second_item_selects_first() {
    // items streamed one at a time; Enter right after the second arrives,
    // cursor still at 0, selects the first-streamed item
    let mut e: Engine<String> = Engine::new();
    assert!(add(&mut e, "first"));
    e.tick(None, None);
    assert!(add(&mut e, "second"));
    e.tick(None, Some(InputEvent::Confirm));
    assert!(e.is_done());
    assert_eq!(e.cursor_index(), 0);
    assert_eq!(e.take_selected(), "first".to_string());
}

#[test]
fn moving_up_from_first_stays_there() {
    let mut e: Engine<String> = Engine::new();
    assert!(add(&mut e, "a"));
    assert!(add(&mut e, "b"));
    assert_eq!(e.cursor_index(), 0);
    e.tick(None, Some(InputEvent::MoveUp));
    assert_eq!(e.cursor_index(), 0);
    e.tick(Some(InputEvent::MoveUp), None);
    assert_eq!(e.cursor_index(), 0);
}

#[test]
fn moving_down_from_last_stays_there() {
    let mut e: Engine<String> = Engine::new();
    assert!(add(&mut e, "a"));
    assert!(add(&mut e, "b"));
    e.tick(None, Some(InputEvent::MoveDown));
    assert_eq!(e.cursor_index(), 1);
    e.tick(None, Some(InputEvent::MoveDown));
    assert_eq!(e.cursor_index(), 1);
    e.tick(Some(InputEvent::MoveDown), None);
    assert_eq!(e.cursor_index(), 1);
}

#[test]
fn cursor_is_inert_while_empty() {
    let mut e: Engine<String> = Engine::new();
    e.tick(None, Some(InputEvent::MoveDown));
    assert_eq!(e.cursor_index(), 0);
    e.tick(None, Some(InputEvent::MoveUp));
    assert_eq!(e.cursor_index(), 0);
    assert!(!e.is_done());
}

#[test]
fn adding_after_done_fails_observably() {
    let mut e: Engine<String> = Engine::new();
    assert!(add(&mut e, "only"));
    e.tick(None, Some(InputEvent::Confirm));
    assert!(e.is_done());
    assert!(!add(&mut e, "too late"), "an item offered after the engine stopped must be refused");
    assert_eq!(e.item_count(), 1);
}

#[test]
fn display_cache_matches_items() {
    let mut e: Engine<String> = Engine::new();
    assert!(add(&mut e, "one"));
    assert!(add(&mut e, "two"));
    assert!(add(&mut e, "three"));
    assert_eq!(e.displays(), &vec!["one".to_string(), "two".to_string(), "three".to_string()]);
    assert_eq!(e.item_count(), 3);
}

#[test]
fn keyboard_wins_over_device_in_one_tick() {
    let mut e: Engine<String> = Engine::new();
    assert!(add(&mut e, "a"));
    assert!(add(&mut e, "b"));
    assert!(add(&mut e, "c"));
    // both sources fire: the keyboard's displacement overwrites the device's
    e.tick(Some(InputEvent::MoveUp), Some(InputEvent::MoveDown));
    assert_eq!(e.cursor_index(), 1);
    // a device confirm is not overwritten by a keyboard move
    e.tick(Some(InputEvent::Confirm), Some(InputEvent::MoveDown));
    assert!(e.is_done());
    assert_eq!(e.take_selected(), "c".to_string());
}

#[test]
fn device_events_move_and_confirm() {
    let mut e: Engine<String> = Engine::new();
    assert!(add(&mut e, "a"));
    assert!(add(&mut e, "b"));
    e.tick(Some(InputEvent::MoveDown), None);
    assert_eq!(e.cursor_index(), 1);
    e.tick(Some(InputEvent::MoveUp), None);
    assert_eq!(e.cursor_index(), 0);
    e.tick(Some(InputEvent::Confirm), None);
    assert!(e.is_done());
    assert_eq!(e.take_selected(), "a".to_string());
}

#[test]
fn other_events_are_ignored() {
    let mut e: Engine<String> = Engine::new();
    assert!(add(&mut e, "a"));
    assert!(add(&mut e, "b"));
    e.tick(Some(InputEvent::Other), Some(InputEvent::Other));
    assert_eq!(e.cursor_index(), 0);
    assert!(!e.is_done());
}

#[test]
fn adapter_filter_forwards_only_meaningful_events() {
    assert!(termpick::events::forwards(InputEvent::MoveUp));
    assert!(termpick::events::forwards(InputEvent::MoveDown));
    assert!(termpick::events::forwards(InputEvent::Confirm));
    assert!(!termpick::events::forwards(InputEvent::Other));
}

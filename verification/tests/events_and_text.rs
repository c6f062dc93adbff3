//! The event log's entries, the typewriter reveal and the decimal
//! rendering helpers.

use dungeon_core::events::{revealed_prefix, GameEvent};
use dungeon_core::game_state::GameState;
use dungeon_core::text::{chars_to_string, i32_to_string, u64_to_string};

#[test]
fn event_constructors_fill_their_fields() {
    let neutral = GameEvent::neutral("a calm line");
    assert_eq!(neutral.description, "a calm line");
    assert!(neutral.roll.is_none());
    assert!(neutral.bool_enemy_turn.is_none());

    let user = GameEvent::user_attack("hit!", "17");
    assert_eq!(user.description, "hit!");
    assert_eq!(user.roll.as_deref(), Some("17"));
    assert_eq!(user.bool_enemy_turn, Some(false));

    let monster = GameEvent::monster_attack("bitten!", "3");
    assert_eq!(monster.roll.as_deref(), Some("3"));
    assert_eq!(monster.bool_enemy_turn, Some(true));

    let switch = GameEvent::switch_attack("your turn", false);
    assert!(switch.roll.is_none());
    assert_eq!(switch.bool_enemy_turn, Some(false));
}

#[test]
fn reveal_grows_with_time_and_caps_at_full_length() {
    let event = GameEvent {
        roll: None,
        description: "Hello world".to_string(),
        bool_enemy_turn: None,
        timestamp: 10_000,
    };
    assert_eq!(revealed_prefix(&event, 10_000), "");
    // 400 ms at 15 characters per second reveal 6 characters.
    assert_eq!(revealed_prefix(&event, 10_400), "Hello ");
    assert_eq!(revealed_prefix(&event, 11_000), "Hello world");
    assert_eq!(revealed_prefix(&event, 99_000), "Hello world");
    // A clock that moved backwards reveals nothing.
    assert_eq!(revealed_prefix(&event, 9_000), "");
    // The stored event is untouched.
    assert_eq!(event.description, "Hello world");
    assert_eq!(event.timestamp, 10_000);
}

#[test]
fn event_timestamps_are_fixed_at_construction() {
    let event = GameEvent::neutral("fixed");
    let stamp = event.timestamp;
    let _ = revealed_prefix(&event, stamp + 1_000);
    assert_eq!(event.timestamp, stamp);
}

#[test]
fn log_scrolls_once_window_is_exceeded() {
    let mut state = GameState::default();
    assert_eq!(state.scroll_state.current_scroll_line, 0);
    for _ in 0..28 {
        state.add_event(GameEvent::neutral("line"));
    }
    // Exactly thirty entries: still inside the window.
    assert_eq!(state.events.len(), 30);
    assert_eq!(state.scroll_state.current_scroll_line, 0);
    state.add_event(GameEvent::neutral("line"));
    assert_eq!(state.scroll_state.current_scroll_line, 1);
    for _ in 0..11 {
        state.add_event(GameEvent::neutral("line"));
    }
    assert_eq!(state.events.len(), 42);
    assert_eq!(state.scroll_state.current_scroll_line, 12);
}

#[test]
fn decimal_rendering_is_exact() {
    assert_eq!(u64_to_string(0), "0");
    assert_eq!(u64_to_string(9), "9");
    assert_eq!(u64_to_string(907), "907");
    assert_eq!(u64_to_string(18_446_744_073_709_551_615), "18446744073709551615");
    assert_eq!(i32_to_string(0), "0");
    assert_eq!(i32_to_string(42), "42");
    assert_eq!(i32_to_string(-45), "-45");
    assert_eq!(i32_to_string(i32::MIN), "-2147483648");
}

#[test]
fn chars_to_string_keeps_every_character() {
    assert_eq!(chars_to_string(&vec![]), "");
    assert_eq!(chars_to_string(&vec!['h', 'i', '!']), "hi!");
}

#[test]
fn encounter_log_lines_in_order() {
    let mut state = GameState::default();
    state.initiate_with(0, false, 0, 2);
    let descriptions: Vec<&str> = state
        .events
        .iter()
        .map(|e| e.description.as_str())
        .collect();
    assert_eq!(
        descriptions,
        vec![
            "New game is starting...",
            "",
            "A wild Greta the Fierce appears, brace yourself!",
            "",
            "Rolling initiative......",
            "Greta the Fierce is starting first!",
            "Critical miss! You have 20/20 HP remaining!",
            "",
            "It's your turn! CHARGE!",
        ]
    );
    // The critical miss still records its roll; rendering hides it.
    assert_eq!(state.events[6].roll.as_deref(), Some("0"));
    assert_eq!(state.events[6].bool_enemy_turn, Some(false));
    assert_eq!(state.events[8].bool_enemy_turn, Some(false));
}

//! Navigation, inventory use and name entry driven through the session
//! aggregate's entry points.

use dungeon_core::game_state::{
    ControlType, FightButtons, GameState, InventoryButtons, MonsterSlayedButtons, PopupType,
};
use dungeon_core::items::{HealthPotion, Item};

fn accepting(mut state: GameState) -> GameState {
    state.player_inputs_accepted = true;
    state
}

#[test]
fn fight_menu_clamps_at_both_ends() {
    let mut state = accepting(GameState::default());
    for _ in 0..3 {
        state.move_horizontal(-1);
        assert!(matches!(
            state.controls_type,
            ControlType::FightControls(FightButtons::Attack)
        ));
    }
    state.move_horizontal(1);
    assert!(matches!(
        state.controls_type,
        ControlType::FightControls(FightButtons::Spell)
    ));
    state.move_horizontal(1);
    assert!(matches!(
        state.controls_type,
        ControlType::FightControls(FightButtons::Inventory)
    ));
    state.move_horizontal(1);
    for _ in 0..3 {
        state.move_horizontal(1);
        assert!(matches!(
            state.controls_type,
            ControlType::FightControls(FightButtons::Flee)
        ));
    }
}

#[test]
fn loot_popup_clamps_at_both_ends() {
    let mut state = accepting(GameState::default());
    state.controls_type = ControlType::MonsterSlayedControls(MonsterSlayedButtons::Continue);
    state.popup_type = Some(PopupType::MonsterSlayed);
    for _ in 0..2 {
        state.move_horizontal(-1);
        assert!(matches!(
            state.controls_type,
            ControlType::MonsterSlayedControls(MonsterSlayedButtons::Continue)
        ));
    }
    for _ in 0..3 {
        state.move_horizontal(1);
        assert!(matches!(
            state.controls_type,
            ControlType::MonsterSlayedControls(MonsterSlayedButtons::Skip)
        ));
    }
}

#[test]
fn inventory_popup_clamps_and_keeps_index() {
    let mut state = accepting(GameState::default());
    for _ in 0..3 {
        state
            .player
            .inventory
            .push(Item::Potion(HealthPotion::SmallPotion));
    }
    state.controls_type = ControlType::InventoryControls(InventoryButtons::Use(2));
    state.popup_type = Some(PopupType::Inventory);
    // Left of the use option there is nothing: the index is kept.
    state.move_horizontal(-1);
    assert!(matches!(
        state.controls_type,
        ControlType::InventoryControls(InventoryButtons::Use(2))
    ));
    state.move_horizontal(1);
    assert!(matches!(
        state.controls_type,
        ControlType::InventoryControls(InventoryButtons::Cancel)
    ));
    state.move_horizontal(1);
    assert!(matches!(
        state.controls_type,
        ControlType::InventoryControls(InventoryButtons::Cancel)
    ));
    // Stepping back onto use restarts at the first item.
    state.move_horizontal(-1);
    assert!(matches!(
        state.controls_type,
        ControlType::InventoryControls(InventoryButtons::Use(0))
    ));
}

#[test]
fn vertical_steps_inventory_index_within_bounds() {
    let mut state = accepting(GameState::default());
    for _ in 0..3 {
        state
            .player
            .inventory
            .push(Item::Potion(HealthPotion::SmallPotion));
    }
    state.controls_type = ControlType::InventoryControls(InventoryButtons::Use(0));
    state.popup_type = Some(PopupType::Inventory);
    state.move_vertical(-1);
    assert!(matches!(
        state.controls_type,
        ControlType::InventoryControls(InventoryButtons::Use(0))
    ));
    state.move_vertical(1);
    state.move_vertical(1);
    assert!(matches!(
        state.controls_type,
        ControlType::InventoryControls(InventoryButtons::Use(2))
    ));
    state.move_vertical(1);
    assert!(matches!(
        state.controls_type,
        ControlType::InventoryControls(InventoryButtons::Use(2))
    ));
    state.move_vertical(-1);
    assert!(matches!(
        state.controls_type,
        ControlType::InventoryControls(InventoryButtons::Use(1))
    ));
}

#[test]
fn vertical_scrolls_log_in_fight_menu() {
    let mut state = accepting(GameState::default());
    assert_eq!(state.events.len(), 2);
    assert_eq!(state.scroll_state.current_scroll_line, 0);
    state.move_vertical(-1);
    assert_eq!(state.scroll_state.current_scroll_line, 0);
    state.move_vertical(1);
    assert_eq!(state.scroll_state.current_scroll_line, 1);
    state.move_vertical(1);
    assert_eq!(state.scroll_state.current_scroll_line, 2);
    state.move_vertical(1);
    assert_eq!(state.scroll_state.current_scroll_line, 2);
}

#[test]
fn navigation_ignored_while_input_not_accepted() {
    let mut state = GameState::default();
    state.move_horizontal(1);
    assert!(matches!(
        state.controls_type,
        ControlType::FightControls(FightButtons::Attack)
    ));
    state.move_vertical(1);
    assert_eq!(state.scroll_state.current_scroll_line, 0);
}

#[test]
fn select_opens_and_cancels_inventory() {
    let mut state = accepting(GameState::default());
    state.move_horizontal(1);
    state.move_horizontal(1);
    state.select_button();
    assert!(matches!(
        state.controls_type,
        ControlType::InventoryControls(InventoryButtons::Cancel)
    ));
    assert!(matches!(state.popup_type, Some(PopupType::Inventory)));
    state.select_button();
    assert!(matches!(
        state.controls_type,
        ControlType::FightControls(FightButtons::Attack)
    ));
    assert!(state.popup_type.is_none());
}

#[test]
fn giant_potion_restores_all_and_costs_the_turn() {
    let mut state = accepting(GameState::default());
    state.player.remaining_health_points = 5;
    state
        .player
        .inventory
        .push(Item::Potion(HealthPotion::GiantPotion));
    state.controls_type = ControlType::InventoryControls(InventoryButtons::Use(0));
    state.popup_type = Some(PopupType::Inventory);
    state.use_selected_item();
    assert_eq!(
        state.player.remaining_health_points,
        state.player.total_health_points
    );
    assert!(state.player.inventory.is_empty());
    assert!(matches!(
        state.controls_type,
        ControlType::FightControls(FightButtons::Attack)
    ));
    assert!(state.popup_type.is_none());
    let last = state.events.last().unwrap();
    assert_eq!(
        last.description,
        "Giant health potion has been used !(Restores all HP)"
    );
    // Using an item costs the turn: the adversary attacks at once.
    state.let_monster_attack_with(0, 1);
    assert_eq!(state.player.remaining_health_points, 20);
    assert!(state.player_inputs_accepted);
}

#[test]
fn small_potion_heals_ten_capped_at_total() {
    let mut state = accepting(GameState::default());
    state.player.remaining_health_points = 5;
    state
        .player
        .inventory
        .push(Item::Potion(HealthPotion::SmallPotion));
    state
        .player
        .inventory
        .push(Item::Potion(HealthPotion::SmallPotion));
    state.controls_type = ControlType::InventoryControls(InventoryButtons::Use(0));
    state.popup_type = Some(PopupType::Inventory);
    state.use_selected_item();
    assert_eq!(state.player.remaining_health_points, 15);
    assert_eq!(state.player.inventory.len(), 1);
    state.controls_type = ControlType::InventoryControls(InventoryButtons::Use(0));
    state.popup_type = Some(PopupType::Inventory);
    state.use_selected_item();
    assert_eq!(state.player.remaining_health_points, 20);
    assert!(state.player.inventory.is_empty());
}

#[test]
fn use_on_empty_inventory_is_a_guarded_noop() {
    let mut state = accepting(GameState::default());
    state.controls_type = ControlType::InventoryControls(InventoryButtons::Use(0));
    state.popup_type = Some(PopupType::Inventory);
    let events_before = state.events.len();
    state.use_selected_item();
    assert!(matches!(
        state.controls_type,
        ControlType::InventoryControls(InventoryButtons::Use(0))
    ));
    assert!(matches!(state.popup_type, Some(PopupType::Inventory)));
    assert_eq!(state.events.len(), events_before);
}

#[test]
fn continue_clears_log_and_starts_new_encounter() {
    let mut state = accepting(GameState::default());
    state.initiate_with(0, false, 10, 2);
    state.let_player_attack_with(10, 3, 10, 2);
    state.let_player_attack_with(10, 3, 10, 2);
    assert!(matches!(state.popup_type, Some(PopupType::MonsterSlayed)));
    let defeated = state.slained_monsters.len();
    state.select_button();
    assert!(state.popup_type.is_none());
    // A fresh encounter: new monster at the new level, log restarted.
    assert_eq!(state.current_monster.remaining_health_points, 5);
    assert_eq!(state.current_monster.level, state.player.level);
    assert_eq!(state.slained_monsters.len(), defeated);
    assert!(state.events.len() >= 3);
    assert_eq!(
        state.events[0].description,
        format!("A wild {} appears, brace yourself!", state.current_monster.name)
    );
}

#[test]
fn name_entry_edits_and_submits() {
    let mut state = GameState::default();
    state.enter_char('a');
    state.enter_char('b');
    state.enter_char('c');
    assert_eq!(state.player_choice.cursor_position, 3);
    state.move_cursor_left();
    state.delete_char();
    assert_eq!(state.player_choice.input, vec!['a', 'c']);
    assert_eq!(state.player_choice.cursor_position, 1);
    state.submit_name();
    assert_eq!(state.player.name, "ac");
    assert!(state.player_choice.input.is_empty());
    assert_eq!(state.player_choice.cursor_position, 0);
}

#[test]
fn cursor_clamps_at_both_ends() {
    let mut state = GameState::default();
    state.move_cursor_left();
    assert_eq!(state.player_choice.cursor_position, 0);
    state.enter_char('x');
    state.move_cursor_right();
    state.move_cursor_right();
    assert_eq!(state.player_choice.cursor_position, 1);
    state.reset_cursor();
    assert_eq!(state.player_choice.cursor_position, 0);
    state.delete_char();
    assert_eq!(state.player_choice.input, vec!['x']);
}

//! Combat, progression and inventory scenarios driven through the
//! deterministic entry points with fixed roll sequences.

use dungeon_core::game_state::{
    ControlType, FightButtons, GameState, MonsterSlayedButtons, PopupType,
};
use dungeon_core::items::{HealthPotion, Item};
use dungeon_core::monster::{monster_from_template, Loot};
use dungeon_core::items::ItemActions;
use dungeon_core::player::{Attack, Player};
use dungeon_core::view::FightInfo;

#[test]
fn fresh_session_defaults() {
    let state = GameState::default();
    assert_eq!(state.player.level, 1);
    assert_eq!(state.player.remaining_health_points, 20);
    assert_eq!(state.player.total_health_points, 20);
    assert_eq!(state.player.damage_lo, 1);
    assert_eq!(state.player.damage_hi, 4);
    assert_eq!(state.player.experience, 0);
    assert_eq!(state.player.experience_to_level_up, 20);
    assert!(state.player.inventory.is_empty());
    assert!(!state.player_inputs_accepted);
    assert!(!state.game_over);
    assert!(state.popup_type.is_none());
    assert!(matches!(
        state.controls_type,
        ControlType::FightControls(FightButtons::Attack)
    ));
    assert_eq!(state.current_monster.remaining_health_points, 5);
    assert_eq!(state.current_monster.level, 1);
    assert_eq!(state.events.len(), 2);
    assert_eq!(state.events[0].description, "New game is starting...");
    assert_eq!(state.events[1].description, "");
}

#[test]
fn initiate_with_player_start_accepts_input() {
    let mut state = GameState::default();
    state.initiate_with(0, true, 0, 1);
    assert!(state.player_inputs_accepted);
    assert!(!state.game_over);
    assert_eq!(state.current_monster.name, "Greta the Fierce");
    assert_eq!(state.current_monster.remaining_health_points, 5);
    assert_eq!(state.current_monster.total_health_points, 8);
    assert_eq!(state.current_monster.damage_lo, 1);
    assert_eq!(state.current_monster.damage_hi, 4);
    assert_eq!(state.current_monster.experience_given, 20);
    assert_eq!(state.player.remaining_health_points, 20);
}

#[test]
fn initiate_with_monster_start_attacks_before_input() {
    let mut state = GameState::default();
    state.initiate_with(0, false, 10, 2);
    // The adversary won initiative and already attacked once.
    assert_eq!(state.player.remaining_health_points, 18);
    assert!(state.player_inputs_accepted);
    assert!(!state.game_over);
}

#[test]
fn critical_miss_deals_nothing() {
    let mut state = GameState::default();
    state.initiate_with(0, true, 0, 1);
    // Player rolls 0: zero damage dealt; counter roll 0 too.
    state.let_player_attack_with(0, 3, 0, 4);
    assert_eq!(state.current_monster.remaining_health_points, 5);
    assert_eq!(state.player.remaining_health_points, 20);
}

#[test]
fn critical_hit_deals_double() {
    let mut state = GameState::default();
    state.initiate_with(0, true, 0, 1);
    // Player rolls 20 with sampled damage 2: 4 dealt; counter misses.
    state.let_player_attack_with(20, 2, 0, 4);
    assert_eq!(state.current_monster.remaining_health_points, 1);
}

#[test]
fn normal_roll_deals_sampled_damage() {
    let mut state = GameState::default();
    state.initiate_with(0, true, 0, 1);
    state.let_player_attack_with(10, 3, 0, 4);
    assert_eq!(state.current_monster.remaining_health_points, 2);
    // The counter missed; the turn came back.
    assert!(state.player_inputs_accepted);
}

#[test]
fn fight_to_loot_popup_with_level_up() {
    let mut state = GameState::default();
    state.initiate_with(0, false, 10, 2);
    assert_eq!(state.player.remaining_health_points, 18);
    state.let_player_attack_with(10, 3, 10, 2);
    assert_eq!(state.current_monster.remaining_health_points, 2);
    assert_eq!(state.player.remaining_health_points, 16);
    state.let_player_attack_with(10, 3, 10, 2);
    // The monster fell to -1; the encounter resolved. Greta grants 20
    // experience, exactly the requirement: one level-up, nothing
    // carried over.
    assert_eq!(state.current_monster.remaining_health_points, -1);
    assert_eq!(state.player.level, 2);
    assert_eq!(state.player.total_health_points, 40);
    assert_eq!(state.player.damage_hi, 5);
    assert_eq!(state.player.experience, 0);
    assert_eq!(state.player.experience_to_level_up, 0);
    // The player was not healed by leveling.
    assert_eq!(state.player.remaining_health_points, 16);
    assert!(state.current_monster.loot.level_up);
    assert_eq!(
        state.player.inventory,
        vec![Item::Potion(HealthPotion::SmallPotion)]
    );
    assert_eq!(state.slained_monsters.len(), 1);
    assert!(state.slained_monsters[0].loot.level_up);
    assert!(matches!(
        state.controls_type,
        ControlType::MonsterSlayedControls(MonsterSlayedButtons::Continue)
    ));
    assert!(matches!(state.popup_type, Some(PopupType::MonsterSlayed)));
    // No counterattack follows a resolved encounter.
    assert!(state.player_inputs_accepted);
}

#[test]
fn fight_to_game_over() {
    let mut state = GameState::default();
    state.initiate_with(1, false, 20, 4);
    // A critical hit for 8: the player stands at 12.
    assert_eq!(state.player.remaining_health_points, 12);
    state.let_monster_attack_with(20, 4);
    assert_eq!(state.player.remaining_health_points, 4);
    assert!(!state.game_over);
    state.let_monster_attack_with(20, 4);
    assert_eq!(state.player.remaining_health_points, -4);
    assert!(state.game_over);
    assert!(!state.player_inputs_accepted);
    let last = state.events.last().unwrap();
    assert_eq!(last.description, "GAME OVER...");
}

#[test]
fn killing_blow_resolves_before_counterattack() {
    // A killing blow resolves the encounter at once: the monster never
    // strikes back, so the player survives the exchange.
    let mut state = GameState::default();
    state.initiate_with(3, false, 10, 1);
    assert_eq!(state.player.remaining_health_points, 19);
    state.let_player_attack_with(20, 3, 10, 2);
    assert!(!state.game_over);
    assert_eq!(state.player.remaining_health_points, 19);
    assert!(matches!(state.popup_type, Some(PopupType::MonsterSlayed)));
}

#[test]
fn death_check_sees_the_player_first() {
    let mut state = GameState::default();
    state.player.remaining_health_points = 0;
    state.current_monster.remaining_health_points = -1;
    let reported = dungeon_core::fight::check_for_death(&mut state);
    assert!(reported);
    assert!(state.game_over);
    assert!(!state.player_inputs_accepted);
    assert!(state.popup_type.is_none());
    assert!(state.slained_monsters.is_empty());
}

#[test]
fn attack_ignored_while_input_not_accepted() {
    let mut state = GameState::default();
    // Input has not been accepted yet: the attack is a silent no-op.
    let health_before = state.current_monster.remaining_health_points;
    let events_before = state.events.len();
    state.let_player_attack_with(10, 3, 10, 2);
    assert_eq!(
        state.current_monster.remaining_health_points,
        health_before
    );
    assert_eq!(state.events.len(), events_before);
}

#[test]
fn attack_event_names_damage_and_health() {
    let mut state = GameState::default();
    state.initiate_with(0, true, 0, 1);
    state.let_player_attack_with(7, 3, 0, 4);
    // The player's hit, then the adversary's turn lines follow.
    let descriptions: Vec<&str> = state
        .events
        .iter()
        .map(|e| e.description.as_str())
        .collect();
    assert!(descriptions.contains(&"Enemy takes 3 damage! Ennemy has 2/8 HP remaining!"));
    let rolls: Vec<Option<&str>> = state
        .events
        .iter()
        .map(|e| e.roll.as_deref())
        .collect();
    assert!(rolls.contains(&Some("7")));
}

#[test]
fn receive_experience_accumulates_below_requirement() {
    let mut player = Player::create_player("Rolf".to_string());
    player.receive_experience(5);
    assert_eq!(player.level, 1);
    assert_eq!(player.experience, 5);
    assert_eq!(player.experience_to_level_up, 15);
}

#[test]
fn receive_experience_levels_up_with_carry() {
    let mut player = Player::create_player("Rolf".to_string());
    player.receive_experience(30);
    assert_eq!(player.level, 2);
    assert_eq!(player.experience, 10);
    assert_eq!(player.experience_to_level_up, 40);
    assert_eq!(player.total_health_points, 40);
    assert_eq!(player.damage_hi, 5);
}

#[test]
fn receive_experience_exact_requirement_carries_nothing() {
    let mut player = Player::create_player("Rolf".to_string());
    player.receive_experience(20);
    assert_eq!(player.level, 2);
    assert_eq!(player.experience, 0);
    assert_eq!(player.experience_to_level_up, 0);
    assert_eq!(player.total_health_points, 40);
}

#[test]
fn receive_damage_is_exact_subtraction() {
    let mut player = Player::create_player("Rolf".to_string());
    player.receive_damage(7);
    assert_eq!(player.remaining_health_points, 13);
    player.receive_damage(14);
    assert_eq!(player.remaining_health_points, -1);
}

#[test]
fn attack_damage_stays_in_range() {
    let player = Player::create_player("Rolf".to_string());
    for _ in 0..50 {
        let damage = player.get_attack_damage();
        assert!((1..=4).contains(&damage));
    }
}

#[test]
fn monster_template_scales_with_level() {
    let monster = monster_from_template(9, 3);
    assert_eq!(monster.name, "Gloop the Gooey");
    assert_eq!(monster.total_health_points, 32);
    assert_eq!(monster.remaining_health_points, 5);
    assert_eq!(monster.experience_given, 80);
    assert_eq!(monster.damage_lo, 1);
    assert_eq!(monster.damage_hi, 6);
    assert_eq!(monster.level, 3);
    assert_eq!(
        monster.loot,
        Loot {
            level_up: false,
            item: Some(Item::Potion(HealthPotion::GiantPotion)),
        }
    );
}

#[test]
fn templates_without_loot_drop_nothing() {
    let mut state = GameState::default();
    state.initiate_with(3, true, 0, 1);
    // Mystica carries no item: defeat grants experience only.
    state.let_player_attack_with(20, 3, 0, 1);
    assert!(state.player.inventory.is_empty());
    assert_eq!(state.slained_monsters.len(), 1);
}

#[test]
fn random_monster_factories_obey_the_formulas() {
    let mut state = GameState::default();
    let fresh = dungeon_core::monster::get_random_monster(&mut state);
    assert_eq!(fresh.level, 1);
    assert_eq!(fresh.remaining_health_points, 5);
    assert_eq!(fresh.total_health_points, 8);
    assert_eq!(fresh.damage_lo, 1);
    assert_eq!(fresh.damage_hi, 4);
    assert_eq!(fresh.experience_given, 20);

    let placeholder = dungeon_core::monster::get_initial_monster();
    assert_eq!(placeholder.level, 1);
    assert_eq!(placeholder.remaining_health_points, 5);
    assert_eq!(placeholder.total_health_points, 8);
    assert_eq!(placeholder.damage_lo, 1);
    assert_eq!(placeholder.damage_hi, 6);
    assert_eq!(placeholder.experience_given, 20);
}

#[test]
fn fighter_views_carry_the_right_stats() {
    let state = GameState::default();
    let hero = state.player.get_fighter_info();
    assert_eq!(hero.remaining_health_points, 20);
    assert_eq!(hero.total_health_points, 20);
    assert_eq!(hero.experience, Some(0));
    assert_eq!(hero.experience_to_level_up, None);
    assert!(hero.description.is_none());
    let foe = state.current_monster.get_fighter_info();
    assert_eq!(foe.remaining_health_points, 5);
    assert!(foe.experience.is_none());
    assert!(foe.description.is_some());
}

#[test]
fn item_names_and_descriptions() {
    let small = Item::Potion(HealthPotion::SmallPotion);
    assert_eq!(small.get_name(), "Small health potion");
    assert_eq!(small.get_description(), "Restores 10 HP");
    let medium = Item::Potion(HealthPotion::MediumPotion);
    assert_eq!(medium.get_name(), "Medium health potion");
    assert_eq!(medium.get_description(), "Restores 50 HP");
    let giant = Item::Potion(HealthPotion::GiantPotion);
    assert_eq!(giant.get_name(), "Giant health potion");
    assert_eq!(giant.get_description(), "Restores all HP");
}

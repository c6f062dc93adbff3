//! The combat resolution engine: stateless algorithms on the session
//! aggregate for initiative, attack rolls, the death and loot check,
//! turn switching and encounter start. Each random entry point draws
//! its rolls once and hands them to a deterministic twin whose contract
//! pins the outcome down exactly.

use vstd::prelude::*;
use vstd::string::StringExecFns;

use crate::consts::{EVENT_WINDOW, MAX_LEVEL};
use crate::events::{attack_data, neutral_data, switch_data, GameEvent};
use crate::game_state::{
    ControlType, GameState, MonsterSlayedButtons, PopupType,
};
use crate::monster::{is_template_monster, Loot, Monster, TEMPLATE_COUNT};
use crate::player::{player_after_exp, Attack, Player};
use crate::random::rand_i32_inclusive;
use crate::text::{i32_to_string, int_str};

verus! {

/// The scroll position after `n` more events on a log of length `len`:
/// advanced so the newest entries stay visible once the log exceeds the
/// window, untouched before that.
pub open spec fn scroll_after(len: int, n: int, scroll: int) -> int {
    if len + n > EVENT_WINDOW {
        len + n - EVENT_WINDOW
    } else {
        scroll
    }
}

/// The damage dealt by an attack roll: a roll of exactly 0 is a
/// critical miss dealing nothing, exactly 20 a critical hit dealing
/// double the sampled damage, and everything between deals the sampled
/// damage unmodified.
pub open spec fn damage_dealt(hit: int, damage: int) -> int {
    if hit == 0 {
        0
    } else if hit == 20 {
        2 * damage
    } else {
        damage
    }
}

/// The narrative line of one attack: what was dealt, and the defender's
/// resulting health out of their total.
pub open spec fn attack_description(
    player_attacked: bool,
    hit: int,
    dealt: int,
    remaining: int,
    total: int,
) -> Seq<char> {
    let lead = if hit == 0 {
        "Critical miss!"@
    } else if player_attacked {
        "You take "@ + int_str(dealt) + " damage!"@
    } else {
        "Enemy takes "@ + int_str(dealt) + " damage!"@
    };
    let tail = if player_attacked {
        " You have "@ + int_str(remaining) + "/"@ + int_str(total) + " HP remaining!"@
    } else {
        " Ennemy has "@ + int_str(remaining) + "/"@ + int_str(total) + " HP remaining!"@
    };
    lead + tail
}

/// One attack resolved with the given rolls: the defender's health
/// drops by exactly the damage dealt, one event describing the attack
/// is appended, and nothing else changes.
pub open spec fn attack_rel(
    pre: GameState,
    post: GameState,
    player_attacked: bool,
    hit: int,
    damage: int,
) -> bool {
    let dealt = damage_dealt(hit, damage);
    let defender_rem = if player_attacked {
        pre.player.remaining_health_points - dealt
    } else {
        pre.current_monster.remaining_health_points - dealt
    };
    let defender_total = if player_attacked {
        pre.player.total_health_points as int
    } else {
        pre.current_monster.total_health_points as int
    };
    let desc = attack_description(player_attacked, hit, dealt, defender_rem, defender_total);
    &&& if player_attacked {
        post.player == (Player { remaining_health_points: defender_rem as i32, ..pre.player })
            && post.current_monster == pre.current_monster
    } else {
        post.current_monster == (Monster {
            remaining_health_points: defender_rem as i32,
            ..pre.current_monster
        }) && post.player == pre.player
    }
    &&& post.log() == pre.log().push(attack_data(desc, int_str(hit), false))
    &&& post.scroll_state.current_scroll_line == scroll_after(
        pre.events@.len() as int,
        1,
        pre.scroll_state.current_scroll_line as int,
    )
    &&& post.slained_monsters == pre.slained_monsters
    &&& post.player_inputs_accepted == pre.player_inputs_accepted
    &&& post.game_over == pre.game_over
    &&& post.player_choice == pre.player_choice
    &&& post.popup_type == pre.popup_type
    &&& post.controls_type == pre.controls_type
}

/// The death and encounter-resolution check. Death is reported exactly
/// when a combatant's health is at or below zero; the player's death is
/// checked first, so simultaneous defeat favors the player surviving.
/// A dead player ends the session for good; a dead monster resolves the
/// encounter: experience is granted (possibly leveling, recorded in the
/// loot), any dropped item joins the inventory, the defeated monster
/// joins the defeated log, and control passes to the loot popup.
pub open spec fn death_check_rel(pre: GameState, post: GameState, reported: bool) -> bool {
    &&& reported == (pre.player.remaining_health_points <= 0
        || pre.current_monster.remaining_health_points <= 0)
    &&& if pre.player.remaining_health_points <= 0 {
        &&& post.log() == pre.log().push(neutral_data("GAME OVER..."@))
        &&& post.scroll_state.current_scroll_line == scroll_after(
            pre.events@.len() as int,
            1,
            pre.scroll_state.current_scroll_line as int,
        )
        &&& post.player_inputs_accepted == false
        &&& post.game_over == true
        &&& post.player == pre.player
        &&& post.current_monster == pre.current_monster
        &&& post.slained_monsters == pre.slained_monsters
        &&& post.player_choice == pre.player_choice
        &&& post.popup_type == pre.popup_type
        &&& post.controls_type == pre.controls_type
    } else if pre.current_monster.remaining_health_points <= 0 {
        let granted = player_after_exp(pre.player, pre.current_monster.experience_given as int);
        let slain = (Monster {
            loot: Loot {
                level_up: if granted.level != pre.player.level {
                    true
                } else {
                    pre.current_monster.loot.level_up
                },
                item: pre.current_monster.loot.item,
            },
            ..pre.current_monster
        });
        &&& post.current_monster == slain
        &&& post.player.inventory@ == (match pre.current_monster.loot.item {
            Some(item) => granted.inventory@.push(item),
            None => granted.inventory@,
        })
        &&& post.player == (Player { inventory: post.player.inventory, ..granted })
        &&& post.slained_monsters@ == pre.slained_monsters@.push(slain)
        &&& post.controls_type == ControlType::MonsterSlayedControls(
            MonsterSlayedButtons::Continue,
        )
        &&& post.popup_type == Some(PopupType::MonsterSlayed)
        &&& post.events == pre.events
        &&& post.scroll_state == pre.scroll_state
        &&& post.player_inputs_accepted == pre.player_inputs_accepted
        &&& post.game_over == pre.game_over
        &&& post.player_choice == pre.player_choice
    } else {
        post == pre
    }
}

/// The announcement line of a turn switch.
pub open spec fn switch_message(give_turn_to_player: bool) -> Seq<char> {
    if give_turn_to_player {
        "It's your turn! CHARGE!"@
    } else {
        "It's the enemy's turn!"@
    }
}

/// A turn switch: input acceptance follows whose turn it is, and a
/// blank line plus the announcement are appended to the log.
pub open spec fn switch_turn_rel(pre: GameState, post: GameState, give_turn_to_player: bool) -> bool {
    &&& post.player_inputs_accepted == give_turn_to_player
    &&& post.log() == pre.log().push(neutral_data(""@)).push(
        switch_data(switch_message(give_turn_to_player), !give_turn_to_player),
    )
    &&& post.scroll_state.current_scroll_line == scroll_after(
        pre.events@.len() as int,
        2,
        pre.scroll_state.current_scroll_line as int,
    )
    &&& post.player == pre.player
    &&& post.current_monster == pre.current_monster
    &&& post.slained_monsters == pre.slained_monsters
    &&& post.game_over == pre.game_over
    &&& post.player_choice == pre.player_choice
    &&& post.popup_type == pre.popup_type
    &&& post.controls_type == pre.controls_type
}

/// An initiative roll announced in the log: when the player starts,
/// input is accepted at once; otherwise the monster is announced as
/// starting and input acceptance is left alone.
pub open spec fn initiative_rel(pre: GameState, post: GameState, player_starts: bool) -> bool {
    let announcement = if player_starts {
        neutral_data("You start!"@)
    } else {
        neutral_data(pre.current_monster.name@ + " is starting first!"@)
    };
    &&& post.log() == pre.log().push(neutral_data("Rolling initiative......"@)).push(announcement)
    &&& post.scroll_state.current_scroll_line == scroll_after(
        pre.events@.len() as int,
        2,
        pre.scroll_state.current_scroll_line as int,
    )
    &&& post.player_inputs_accepted == (player_starts || pre.player_inputs_accepted)
    &&& post.player == pre.player
    &&& post.current_monster == pre.current_monster
    &&& post.slained_monsters == pre.slained_monsters
    &&& post.game_over == pre.game_over
    &&& post.player_choice == pre.player_choice
    &&& post.popup_type == pre.popup_type
    &&& post.controls_type == pre.controls_type
}

/// A new encounter: the current monster is wholly replaced by the
/// template `idx` scaled to the player's level, and its appearance is
/// announced in the log.
pub open spec fn new_battle_rel(pre: GameState, post: GameState, idx: int) -> bool {
    &&& is_template_monster(post.current_monster, idx, pre.player.level as int)
    &&& post.current_monster.wf()
    &&& post.log() == pre.log().push(
        neutral_data("A wild "@ + post.current_monster.name@ + " appears, brace yourself!"@),
    ).push(neutral_data(""@))
    &&& post.scroll_state.current_scroll_line == scroll_after(
        pre.events@.len() as int,
        2,
        pre.scroll_state.current_scroll_line as int,
    )
    &&& post.player == pre.player
    &&& post.slained_monsters == pre.slained_monsters
    &&& post.player_inputs_accepted == pre.player_inputs_accepted
    &&& post.game_over == pre.game_over
    &&& post.player_choice == pre.player_choice
    &&& post.popup_type == pre.popup_type
    &&& post.controls_type == pre.controls_type
}

/// Resolves one attack with the given rolls, deterministically: applies
/// the dealt damage to the defender and logs the outcome.
pub fn roll_attack_with(state: &mut GameState, player_attacked: bool, hit_roll: i32, damage_roll: i32)
    requires
        0 <= hit_roll <= 20,
        0 <= damage_roll <= 0x3FFF_FFFF,
        player_attacked ==> old(state).current_monster.damage_lo <= damage_roll <= old(
            state,
        ).current_monster.damage_hi,
        !player_attacked ==> old(state).player.damage_lo <= damage_roll <= old(
            state,
        ).player.damage_hi,
        player_attacked ==> old(state).player.remaining_health_points - 2 * damage_roll
            >= i32::MIN,
        !player_attacked ==> old(state).current_monster.remaining_health_points - 2 * damage_roll
            >= i32::MIN,
    ensures
        attack_rel(*old(state), *final(state), player_attacked, hit_roll as int, damage_roll as int),
{
    let dealt: i32 = if hit_roll == 0 {
        0
    } else if hit_roll == 20 {
        2 * damage_roll
    } else {
        damage_roll
    };
    let roll_str = i32_to_string(hit_roll);

    let lead = if hit_roll == 0 {
        String::from_str("Critical miss!")
    } else if player_attacked {
        String::from_str("You take ").concat(i32_to_string(dealt).as_str()).concat(" damage!")
    } else {
        String::from_str("Enemy takes ").concat(i32_to_string(dealt).as_str()).concat(" damage!")
    };

    if player_attacked {
        let remaining = state.player.remaining_health_points - dealt;
        state.player.remaining_health_points = remaining;
        let description = lead.concat(" You have ").concat(i32_to_string(remaining).as_str())
            .concat("/").concat(i32_to_string(state.player.total_health_points).as_str()).concat(
            " HP remaining!",
        );
        proof {
            assert(description@ =~= attack_description(
                true,
                hit_roll as int,
                damage_dealt(hit_roll as int, damage_roll as int),
                old(state).player.remaining_health_points - damage_dealt(
                    hit_roll as int,
                    damage_roll as int,
                ),
                old(state).player.total_health_points as int,
            ));
        }
        let event = GameEvent::user_attack(description.as_str(), roll_str.as_str());
        state.add_event(event);
    } else {
        let remaining = state.current_monster.remaining_health_points - dealt;
        state.current_monster.remaining_health_points = remaining;
        let description = lead.concat(" Ennemy has ").concat(i32_to_string(remaining).as_str())
            .concat("/").concat(
            i32_to_string(state.current_monster.total_health_points).as_str(),
        ).concat(" HP remaining!");
        proof {
            assert(description@ =~= attack_description(
                false,
                hit_roll as int,
                damage_dealt(hit_roll as int, damage_roll as int),
                old(state).current_monster.remaining_health_points - damage_dealt(
                    hit_roll as int,
                    damage_roll as int,
                ),
                old(state).current_monster.total_health_points as int,
            ));
        }
        let event = GameEvent::user_attack(description.as_str(), roll_str.as_str());
        state.add_event(event);
    }
}

/// Resolves one attack with fresh rolls: a hit roll drawn uniformly
/// from 0 to 20 and a damage roll from the attacker's range.
pub fn roll_attack(state: &mut GameState, player_attacked: bool)
    requires
        player_attacked ==> 1 <= old(state).current_monster.damage_lo <= old(
            state,
        ).current_monster.damage_hi <= 0x3FFF_FFFF,
        !player_attacked ==> 1 <= old(state).player.damage_lo <= old(state).player.damage_hi
            <= 0x3FFF_FFFF,
        player_attacked ==> old(state).player.remaining_health_points - 2 * old(
            state,
        ).current_monster.damage_hi >= i32::MIN,
        !player_attacked ==> old(state).current_monster.remaining_health_points - 2 * old(
            state,
        ).player.damage_hi >= i32::MIN,
    ensures
        exists|hit: int, damage: int|
            0 <= hit <= 20 && #[trigger] attack_rel(
                *old(state),
                *final(state),
                player_attacked,
                hit,
                damage,
            ) && (if player_attacked {
                old(state).current_monster.damage_lo <= damage
                    <= old(state).current_monster.damage_hi
            } else {
                old(state).player.damage_lo <= damage <= old(state).player.damage_hi
            }),
{
    let hit_roll = rand_i32_inclusive(0, 20);
    let damage_roll = if player_attacked {
        state.current_monster.get_attack_damage()
    } else {
        state.player.get_attack_damage()
    };
    roll_attack_with(state, player_attacked, hit_roll, damage_roll);
}

/// Runs the death and encounter-resolution check, reporting whether a
/// death was observed. The player's death is checked first, ends input
/// for good and logs the terminal line; a monster's death resolves the
/// encounter: loot, experience (at most one level-up), the defeated
/// log, and the loot popup.
pub fn check_for_death(state: &mut GameState) -> (r: bool)
    requires
        old(state).player.remaining_health_points > 0 && old(
            state,
        ).current_monster.remaining_health_points <= 0 ==> old(state).player.wf() && old(
            state,
        ).exp_headroom() && 0 <= old(state).current_monster.experience_given,
    ensures
        death_check_rel(*old(state), *final(state), r),
        r == (old(state).player.remaining_health_points <= 0 || old(
            state,
        ).current_monster.remaining_health_points <= 0),
        old(state).player.remaining_health_points > 0 && old(
            state,
        ).current_monster.remaining_health_points <= 0 && old(state).player.wf()
            ==> final(state).player.wf(),
{
    if state.player.remaining_health_points <= 0 {
        let event = GameEvent::neutral("GAME OVER...");
        state.add_event(event);
        state.player_inputs_accepted = false;
        state.game_over = true;
        true
    } else if state.current_monster.remaining_health_points <= 0 {
        state.controls_type = ControlType::MonsterSlayedControls(MonsterSlayedButtons::Continue);
        let level_before = state.player.level;
        let experience = state.current_monster.experience_given;
        state.player.receive_experience(experience);
        if level_before != state.player.level {
            state.current_monster.loot.level_up = true;
        }
        if let Some(item) = state.current_monster.loot.item {
            state.player.inventory.push(item);
        }
        let slain = state.current_monster.duplicate();
        state.slained_monsters.push(slain);
        state.popup_type = Some(PopupType::MonsterSlayed);
        true
    } else {
        false
    }
}

/// Switches whose turn it is: announces the switch and toggles whether
/// the player's input is accepted.
pub fn switch_attack_turn(state: &mut GameState, give_turn_to_player: bool)
    ensures
        switch_turn_rel(*old(state), *final(state), give_turn_to_player),
{
    let blank = GameEvent::neutral("");
    state.add_event(blank);
    if give_turn_to_player {
        state.player_inputs_accepted = true;
        let event = GameEvent::switch_attack("It's your turn! CHARGE!", false);
        state.add_event(event);
    } else {
        state.player_inputs_accepted = false;
        let event = GameEvent::switch_attack("It's the enemy's turn!", true);
        state.add_event(event);
    }
}

/// Announces the given initiative outcome deterministically: a player
/// win accepts input at once, a monster win announces the monster.
pub fn roll_initiative_with(state: &mut GameState, player_starts: bool)
    ensures
        initiative_rel(*old(state), *final(state), player_starts),
{
    let event = GameEvent::neutral("Rolling initiative......");
    state.add_event(event);
    if player_starts {
        let announcement = GameEvent::neutral("You start!");
        state.add_event(announcement);
        state.player_inputs_accepted = true;
    } else {
        let line = String::from_str(state.current_monster.name.as_str()).concat(
            " is starting first!",
        );
        let announcement = GameEvent::neutral(line.as_str());
        state.add_event(announcement);
    }
}

/// Rolls initiative: a fair coin decides which side acts first, the
/// outcome is announced, and a player win accepts input at once.
pub fn roll_initiative(state: &mut GameState) -> (player_starts: bool)
    ensures
        initiative_rel(*old(state), *final(state), player_starts),
{
    let coin = rand_i32_inclusive(0, 1);
    let player_starts = coin == 0;
    roll_initiative_with(state, player_starts);
    player_starts
}

/// Starts a new encounter against the given template, scaled to the
/// player's current level, and announces the monster's appearance.
pub fn start_new_battle_with(state: &mut GameState, template: usize)
    requires
        template < TEMPLATE_COUNT,
        1 <= old(state).player.level <= MAX_LEVEL,
    ensures
        new_battle_rel(*old(state), *final(state), template as int),
{
    let monster = crate::monster::monster_from_template(template, state.player.level);
    state.current_monster = monster;
    let line = String::from_str("A wild ").concat(state.current_monster.name.as_str()).concat(
        " appears, brace yourself!",
    );
    proof {
        assert(line@ =~= "A wild "@ + state.current_monster.name@
            + " appears, brace yourself!"@);
    }
    let announcement = GameEvent::neutral(line.as_str());
    state.add_event(announcement);
    let blank = GameEvent::neutral("");
    state.add_event(blank);
}

/// Starts a new encounter against a template drawn uniformly at random.
pub fn start_new_battle(state: &mut GameState)
    requires
        1 <= old(state).player.level <= MAX_LEVEL,
    ensures
        exists|idx: int|
            0 <= idx < TEMPLATE_COUNT && #[trigger] new_battle_rel(
                *old(state),
                *final(state),
                idx,
            ),
{
    let template = rand_i32_inclusive(0, (TEMPLATE_COUNT - 1) as i32) as usize;
    start_new_battle_with(state, template);
}

/// Seeds a fresh log with the opening lines of a new game.
pub fn initiate_logs(events: &mut Vec<GameEvent>)
    ensures
        final(events)@.map_values(|e: GameEvent| e.data()) == old(events)@.map_values(
            |e: GameEvent| e.data(),
        ) + seq![neutral_data("New game is starting..."@), neutral_data(""@)],
{
    let opening = GameEvent::neutral("New game is starting...");
    proof {
        crate::game_state::lemma_log_push(events@, opening);
    }
    events.push(opening);
    let blank = GameEvent::neutral("");
    proof {
        crate::game_state::lemma_log_push(events@, blank);
    }
    events.push(blank);
    proof {
        assert(events@.map_values(|e: GameEvent| e.data()) =~= old(events)@.map_values(
            |e: GameEvent| e.data(),
        ) + seq![neutral_data("New game is starting..."@), neutral_data(""@)]);
    }
}

/// Law: a monster's attack on the player subtracts exactly the dealt
/// damage, and the death check that follows reports a death exactly
/// when the resulting health is at or below zero, as long as the
/// monster itself was alive.
pub proof fn lemma_damage_and_death(
    pre: GameState,
    mid: GameState,
    post: GameState,
    hit: int,
    damage: int,
    reported: bool,
)
    requires
        attack_rel(pre, mid, true, hit, damage),
        death_check_rel(mid, post, reported),
        pre.current_monster.remaining_health_points > 0,
        0 <= damage,
        i32::MIN <= pre.player.remaining_health_points - damage_dealt(hit, damage),
    ensures
        mid.player.remaining_health_points == pre.player.remaining_health_points - damage_dealt(
            hit,
            damage,
        ),
        reported <==> mid.player.remaining_health_points <= 0,
{
}

/// Law: an attack roll of exactly 0 always deals zero damage, exactly
/// 20 always deals exactly double the sampled damage, and every roll
/// from 1 through 19 deals the sampled damage unmodified.
pub proof fn lemma_attack_roll_partition(hit: int, damage: int)
    ensures
        hit == 0 ==> damage_dealt(hit, damage) == 0,
        hit == 20 ==> damage_dealt(hit, damage) == 2 * damage,
        1 <= hit <= 19 ==> damage_dealt(hit, damage) == damage,
{
}

} // verus!

//! The session aggregate: the one root object the input driver mutates.
//! It composes the player, the current monster, the defeated-monsters
//! log, the event log with its scroll position, the termination flags
//! and the navigation state machine.

use vstd::prelude::*;

use crate::consts::{EVENT_WINDOW, MAX_LEVEL, MONSTER_BASE_RANGE_MAX_POINT};
use crate::events::{neutral_data, EventData, GameEvent};
use crate::fight::{
    attack_rel, check_for_death, death_check_rel, initiate_logs, initiative_rel, new_battle_rel,
    roll_attack_with, roll_initiative_with, scroll_after, start_new_battle_with,
    switch_attack_turn, switch_turn_rel,
};
use crate::items::{item_description, item_healed, item_name, Item, ItemActions};
use crate::monster::{get_initial_monster, is_initial_monster, Monster, TEMPLATE_COUNT};
use crate::player::{Attack, Player};
use crate::random::rand_i32_inclusive;
use crate::text::chars_to_string;

verus! {

/// Scroll position of the event log's visible window.
pub struct ScrollState {
    pub current_scroll_line: usize,
}

/// Whether the name-entry screen is typing or idle.
#[derive(Clone, Copy, PartialEq, Eq, Debug)]
pub enum InputMode {
    Normal,
    Editing,
}

/// The name-entry buffer: a cursor-addressed line of characters.
pub struct PlayerChoice {
    pub input: Vec<char>,
    pub cursor_position: usize,
    pub input_mode: InputMode,
}

impl PlayerChoice {
    /// The cursor never points past the end of the buffer.
    pub open spec fn wf(self) -> bool {
        self.cursor_position <= self.input@.len()
    }
}

/// The options of the fight menu, in display order.
#[derive(Clone, Copy, PartialEq, Eq, Debug)]
pub enum FightButtons {
    Attack,
    Spell,
    Inventory,
    Flee,
}

/// The options of the loot popup, in display order.
#[derive(Clone, Copy, PartialEq, Eq, Debug)]
pub enum MonsterSlayedButtons {
    Continue,
    Skip,
}

/// The options of the inventory popup: use the indexed item, or cancel.
#[derive(Clone, Copy, PartialEq, Eq, Debug)]
pub enum InventoryButtons {
    Use(usize),
    Cancel,
}

/// Which control context is active, and which of its options is
/// highlighted. At most one context is active at a time.
#[derive(Clone, Copy, PartialEq, Eq, Debug)]
pub enum ControlType {
    FightControls(FightButtons),
    MonsterSlayedControls(MonsterSlayedButtons),
    InventoryControls(InventoryButtons),
}

/// Which popup is visible, when one is.
#[derive(Clone, Copy, PartialEq, Eq, Debug)]
pub enum PopupType {
    MonsterSlayed,
    Inventory,
}

/// The root session state.
pub struct GameState {
    pub player: Player,
    pub scroll_state: ScrollState,
    /// The append-only event log.
    pub events: Vec<GameEvent>,
    /// The adversary of the current encounter, replaced wholly at each
    /// encounter start.
    pub current_monster: Monster,
    /// Monsters defeated so far, in order of defeat.
    pub slained_monsters: Vec<Monster>,
    /// Whether the player's input currently drives the session.
    pub player_inputs_accepted: bool,
    /// Set once the player dies; never reset.
    pub game_over: bool,
    /// The name-entry state of the opening menu.
    pub player_choice: PlayerChoice,
    pub popup_type: Option<PopupType>,
    pub controls_type: ControlType,
}

/// The position of a fight-menu option in display order.
pub open spec fn fight_index(b: FightButtons) -> int {
    match b {
        FightButtons::Attack => 0,
        FightButtons::Spell => 1,
        FightButtons::Inventory => 2,
        FightButtons::Flee => 3,
    }
}

/// The fight-menu option at a display position.
pub open spec fn fight_at(i: int) -> FightButtons {
    if i <= 0 {
        FightButtons::Attack
    } else if i == 1 {
        FightButtons::Spell
    } else if i == 2 {
        FightButtons::Inventory
    } else {
        FightButtons::Flee
    }
}

/// The position of a loot-popup option in display order.
pub open spec fn slayed_index(b: MonsterSlayedButtons) -> int {
    match b {
        MonsterSlayedButtons::Continue => 0,
        MonsterSlayedButtons::Skip => 1,
    }
}

/// The loot-popup option at a display position.
pub open spec fn slayed_at(i: int) -> MonsterSlayedButtons {
    if i <= 0 {
        MonsterSlayedButtons::Continue
    } else {
        MonsterSlayedButtons::Skip
    }
}

/// One horizontal step of the selection, clamped at both ends of each
/// context's fixed option list. Stepping left to the use option of the
/// inventory keeps the remembered item index; stepping back onto it
/// from cancel restarts at the first item.
pub open spec fn nav_horizontal(c: ControlType, value: int) -> ControlType {
    match c {
        ControlType::FightControls(b) => {
            let i = fight_index(b) + value;
            if 0 <= i < 4 {
                ControlType::FightControls(fight_at(i))
            } else {
                c
            }
        },
        ControlType::MonsterSlayedControls(b) => {
            let i = slayed_index(b) + value;
            if 0 <= i < 2 {
                ControlType::MonsterSlayedControls(slayed_at(i))
            } else {
                c
            }
        },
        ControlType::InventoryControls(b) => match b {
            InventoryButtons::Use(_) => if value == 1 {
                ControlType::InventoryControls(InventoryButtons::Cancel)
            } else {
                c
            },
            InventoryButtons::Cancel => if value == -1 {
                ControlType::InventoryControls(InventoryButtons::Use(0))
            } else {
                c
            },
        },
    }
}

/// The state after one horizontal selection step: only the active
/// control context changes.
pub open spec fn horizontal_moved(pre: GameState, value: int) -> GameState {
    GameState { controls_type: nav_horizontal(pre.controls_type, value), ..pre }
}

/// The state after one vertical step. In the fight menu it scrolls the
/// event log, clamped between the top and the log's length; on the
/// inventory's use option it steps the item index, clamped to the
/// inventory's bounds; elsewhere it does nothing.
pub open spec fn vertical_moved(pre: GameState, value: int) -> GameState {
    match pre.controls_type {
        ControlType::FightControls(_) => {
            let s = pre.scroll_state.current_scroll_line as int;
            let stepped = if value == -1 {
                if s != 0 {
                    s - 1
                } else {
                    s
                }
            } else {
                if s != pre.events@.len() {
                    s + 1
                } else {
                    s
                }
            };
            GameState {
                scroll_state: ScrollState { current_scroll_line: stepped as usize },
                ..pre
            }
        },
        ControlType::InventoryControls(b) => match b {
            InventoryButtons::Use(i) => {
                let stepped = if value == -1 {
                    if i > 0 && i - 1 < pre.player.inventory@.len() {
                        InventoryButtons::Use((i - 1) as usize)
                    } else {
                        InventoryButtons::Use(i)
                    }
                } else {
                    if i + 1 < pre.player.inventory@.len() {
                        InventoryButtons::Use((i + 1) as usize)
                    } else {
                        InventoryButtons::Use(i)
                    }
                };
                GameState { controls_type: ControlType::InventoryControls(stepped), ..pre }
            },
            InventoryButtons::Cancel => pre,
        },
        _ => pre,
    }
}

/// Everything outside the event log and its scroll position is equal.
pub open spec fn only_log_changed(pre: GameState, post: GameState) -> bool {
    &&& post.player == pre.player
    &&& post.current_monster == pre.current_monster
    &&& post.slained_monsters == pre.slained_monsters
    &&& post.player_inputs_accepted == pre.player_inputs_accepted
    &&& post.game_over == pre.game_over
    &&& post.player_choice == pre.player_choice
    &&& post.popup_type == pre.popup_type
    &&& post.controls_type == pre.controls_type
}

/// `post` is `pre` with one more event of the given data in the log and
/// the scroll advanced when the log outgrows the visible window.
pub open spec fn appends_event(pre: GameState, post: GameState, ev: EventData) -> bool {
    &&& post.log() == pre.log().push(ev)
    &&& post.scroll_state.current_scroll_line == scroll_after(
        pre.events@.len() as int,
        1,
        pre.scroll_state.current_scroll_line as int,
    )
    &&& only_log_changed(pre, post)
}

/// Mapping a pushed log to event data is pushing the event's data.
pub proof fn lemma_log_push(events: Seq<GameEvent>, e: GameEvent)
    ensures
        events.push(e).map_values(|ev: GameEvent| ev.data()) == events.map_values(
            |ev: GameEvent| ev.data(),
        ).push(e.data()),
{
    assert(events.push(e).map_values(|ev: GameEvent| ev.data()) =~= events.map_values(
        |ev: GameEvent| ev.data(),
    ).push(e.data()));
}

impl GameState {
    /// The data of the event log, in order: what each line says, apart
    /// from its creation time.
    pub open spec fn log(self) -> Seq<EventData> {
        self.events@.map_values(|e: GameEvent| e.data())
    }

    /// The active control context and the visible popup move in
    /// lockstep: each popup context shows its popup, the fight menu
    /// shows none.
    pub open spec fn controls_popup_sync(self) -> bool {
        match self.controls_type {
            ControlType::FightControls(_) => self.popup_type is None,
            ControlType::MonsterSlayedControls(_) => self.popup_type == Some(
                PopupType::MonsterSlayed,
            ),
            ControlType::InventoryControls(_) => self.popup_type == Some(PopupType::Inventory),
        }
    }

    /// A remembered inventory index is within the inventory's bounds,
    /// or zero over an empty inventory.
    pub open spec fn inventory_index_ok(self) -> bool {
        match self.controls_type {
            ControlType::InventoryControls(InventoryButtons::Use(i)) => i == 0 || i
                < self.player.inventory@.len(),
            _ => true,
        }
    }

    /// While the fight menu or the inventory popup is active, the
    /// current monster is alive unless the session already ended: a
    /// defeated monster hands control to the loot popup.
    pub open spec fn monster_alive_for_fight(self) -> bool {
        match self.controls_type {
            ControlType::FightControls(_) => self.game_over
                || self.current_monster.remaining_health_points >= 1,
            ControlType::InventoryControls(_) => self.game_over
                || self.current_monster.remaining_health_points >= 1,
            _ => true,
        }
    }

    /// Well-formedness of the navigation state machine and the
    /// name-entry buffer: contexts and popups in lockstep, remembered
    /// indices in bounds, the cursor inside the buffer.
    pub open spec fn navigation_wf(self) -> bool {
        &&& self.controls_popup_sync()
        &&& self.inventory_index_ok()
        &&& self.player_choice.wf()
    }

    /// Well-formedness of the whole session, as observed between entry
    /// points: both combatants satisfy their stat formulas, the
    /// game-over flag says exactly that the player's health is gone and
    /// excludes further input, and the navigation state machine is in
    /// lockstep with the popups.
    pub open spec fn wf(self) -> bool {
        &&& self.player.wf()
        &&& self.current_monster.wf()
        &&& self.player.remaining_health_points >= -1000
        &&& (self.game_over <==> self.player.remaining_health_points <= 0)
        &&& (self.game_over ==> !self.player_inputs_accepted)
        &&& self.navigation_wf()
        &&& self.monster_alive_for_fight()
    }

    /// Headroom in the progression counters for one more monster
    /// defeat: a machine limit, since the exponential formulas outgrow
    /// an `i32` past the maximum level.
    pub open spec fn exp_headroom(self) -> bool {
        &&& self.player.level < MAX_LEVEL
        &&& self.player.experience + self.current_monster.experience_given <= i32::MAX
    }

    /// Appends one event to the log; once the log outgrows the visible
    /// window, the scroll offset advances so the newest entries remain
    /// visible. Nothing is ever deleted.
    pub fn add_event(&mut self, event: GameEvent)
        ensures
            final(self).events@ == old(self).events@.push(event),
            appends_event(*old(self), *final(self), event.data()),
            old(self).wf() ==> final(self).wf(),
    {
        proof {
            lemma_log_push(self.events@, event);
        }
        self.events.push(event);
        if self.events.len() > EVENT_WINDOW {
            self.scroll_state.current_scroll_line = self.events.len() - EVENT_WINDOW;
        }
    }

    /// Steps the highlighted option one place left or right, clamped at
    /// the ends of the active context's option list. Ignored while
    /// input is not accepted or the session has ended.
    pub fn move_horizontal(&mut self, value: i32)
        requires
            value == -1 || value == 1,
        ensures
            *final(self) == if old(self).player_inputs_accepted && !old(self).game_over {
                horizontal_moved(*old(self), value as int)
            } else {
                *old(self)
            },
            old(self).wf() ==> final(self).wf(),
    {
        if !self.player_inputs_accepted || self.game_over {
            return ;
        }
        let next = match &self.controls_type {
            ControlType::FightControls(b) => {
                let i = fight_button_index(b);
                if value == 1 && i < 3 {
                    ControlType::FightControls(fight_button_at(i + 1))
                } else if value == -1 && i > 0 {
                    ControlType::FightControls(fight_button_at(i - 1))
                } else {
                    self.controls_type
                }
            },
            ControlType::MonsterSlayedControls(b) => {
                let i = slayed_button_index(b);
                if value == 1 && i < 1 {
                    ControlType::MonsterSlayedControls(MonsterSlayedButtons::Skip)
                } else if value == -1 && i > 0 {
                    ControlType::MonsterSlayedControls(MonsterSlayedButtons::Continue)
                } else {
                    self.controls_type
                }
            },
            ControlType::InventoryControls(b) => match b {
                InventoryButtons::Use(_) => if value == 1 {
                    ControlType::InventoryControls(InventoryButtons::Cancel)
                } else {
                    self.controls_type
                },
                InventoryButtons::Cancel => if value == -1 {
                    ControlType::InventoryControls(InventoryButtons::Use(0))
                } else {
                    self.controls_type
                },
            },
        };
        self.controls_type = next;
    }

    /// Steps vertically: scrolls the event log while the fight menu is
    /// active, steps the inventory index while the inventory's use
    /// option is highlighted, and does nothing elsewhere. Ignored while
    /// input is not accepted or the session has ended.
    pub fn move_vertical(&mut self, value: i32)
        requires
            value == -1 || value == 1,
            old(self).scroll_state.current_scroll_line < usize::MAX,
        ensures
            *final(self) == if old(self).player_inputs_accepted && !old(self).game_over {
                vertical_moved(*old(self), value as int)
            } else {
                *old(self)
            },
            old(self).wf() ==> final(self).wf(),
    {
        if !self.player_inputs_accepted || self.game_over {
            return ;
        }
        let controls = self.controls_type;
        match controls {
            ControlType::FightControls(_) => {
                if value == -1 {
                    if self.scroll_state.current_scroll_line != 0 {
                        self.scroll_state.current_scroll_line =
                            self.scroll_state.current_scroll_line - 1;
                    }
                } else {
                    if self.scroll_state.current_scroll_line != self.events.len() {
                        self.scroll_state.current_scroll_line =
                            self.scroll_state.current_scroll_line + 1;
                    }
                }
            },
            ControlType::InventoryControls(b) => match b {
                InventoryButtons::Use(current) => {
                    let inventory_len = self.player.inventory.len();
                    if value == -1 {
                        if current > 0 && current - 1 < inventory_len {
                            self.controls_type = ControlType::InventoryControls(
                                InventoryButtons::Use(current - 1),
                            );
                        }
                    } else {
                        if current < usize::MAX && current + 1 < inventory_len {
                            self.controls_type = ControlType::InventoryControls(
                                InventoryButtons::Use(current + 1),
                            );
                        }
                    }
                },
                InventoryButtons::Cancel => {},
            },
            _ => {},
        }
    }

    // Name entry: a standard cursor-addressed text buffer.

    /// Clamps a cursor position to the buffer's bounds.
    pub fn clamp_cursor(&self, new_cursor_pos: usize) -> (r: usize)
        ensures
            r == if new_cursor_pos <= self.player_choice.input@.len() {
                new_cursor_pos as int
            } else {
                self.player_choice.input@.len() as int
            },
    {
        if new_cursor_pos <= self.player_choice.input.len() {
            new_cursor_pos
        } else {
            self.player_choice.input.len()
        }
    }

    /// Moves the name cursor one place left, stopping at the start.
    pub fn move_cursor_left(&mut self)
        ensures
            *final(self) == (GameState {
                player_choice: PlayerChoice {
                    cursor_position: clamped_cursor(
                        old(self).player_choice,
                        if old(self).player_choice.cursor_position == 0 {
                            0
                        } else {
                            old(self).player_choice.cursor_position - 1
                        },
                    ) as usize,
                    ..old(self).player_choice
                },
                ..*old(self)
            }),
    {
        let moved = if self.player_choice.cursor_position == 0 {
            0
        } else {
            self.player_choice.cursor_position - 1
        };
        self.player_choice.cursor_position = self.clamp_cursor(moved);
    }

    /// Moves the name cursor one place right, stopping at the end.
    pub fn move_cursor_right(&mut self)
        ensures
            *final(self) == (GameState {
                player_choice: PlayerChoice {
                    cursor_position: clamped_cursor(
                        old(self).player_choice,
                        if old(self).player_choice.cursor_position == usize::MAX {
                            usize::MAX as int
                        } else {
                            old(self).player_choice.cursor_position + 1
                        },
                    ) as usize,
                    ..old(self).player_choice
                },
                ..*old(self)
            }),
    {
        let moved = if self.player_choice.cursor_position == usize::MAX {
            usize::MAX
        } else {
            self.player_choice.cursor_position + 1
        };
        self.player_choice.cursor_position = self.clamp_cursor(moved);
    }

    /// Inserts a character at the cursor and moves the cursor right.
    pub fn enter_char(&mut self, new_char: char)
        requires
            old(self).player_choice.wf(),
            old(self).player_choice.input@.len() < usize::MAX,
        ensures
            final(self).player_choice.input@ == old(self).player_choice.input@.insert(
                old(self).player_choice.cursor_position as int,
                new_char,
            ),
            final(self).player_choice.cursor_position == old(self).player_choice.cursor_position
                + 1,
            final(self).player_choice.input_mode == old(self).player_choice.input_mode,
            unchanged_outside_choice(*old(self), *final(self)),
            old(self).wf() ==> final(self).wf(),
    {
        let pos = self.player_choice.cursor_position;
        self.player_choice.input.insert(pos, new_char);
        self.move_cursor_right();
    }

    /// Deletes the character left of the cursor, when there is one, and
    /// moves the cursor left.
    pub fn delete_char(&mut self)
        requires
            old(self).player_choice.wf(),
        ensures
            *final(self) == (if old(self).player_choice.cursor_position != 0 {
                GameState {
                    player_choice: PlayerChoice {
                        input: final(self).player_choice.input,
                        cursor_position: (old(self).player_choice.cursor_position - 1) as usize,
                        ..old(self).player_choice
                    },
                    ..*old(self)
                }
            } else {
                *old(self)
            }),
            old(self).player_choice.cursor_position != 0 ==> final(self).player_choice.input@
                == old(self).player_choice.input@.remove(
                old(self).player_choice.cursor_position - 1,
            ),
            old(self).wf() ==> final(self).wf(),
    {
        if self.player_choice.cursor_position != 0 {
            let pos = self.player_choice.cursor_position;
            self.player_choice.input.remove(pos - 1);
            self.move_cursor_left();
        }
    }

    /// Resets the name cursor to the start of the buffer.
    pub fn reset_cursor(&mut self)
        ensures
            *final(self) == (GameState {
                player_choice: PlayerChoice { cursor_position: 0, ..old(self).player_choice },
                ..*old(self)
            }),
    {
        self.player_choice.cursor_position = 0;
    }

    /// Submits the entered name: the player takes it, the buffer
    /// empties, the cursor resets, and editing ends.
    pub fn submit_name(&mut self)
        ensures
            final(self).player.name@ == old(self).player_choice.input@,
            final(self).player == (Player { name: final(self).player.name, ..old(self).player }),
            final(self).player_choice.input@ == Seq::<char>::empty(),
            final(self).player_choice.cursor_position == 0,
            final(self).player_choice.input_mode == InputMode::Normal,
            unchanged_outside_choice_and_player(*old(self), *final(self)),
            old(self).wf() ==> final(self).wf(),
    {
        self.player.name = chars_to_string(&self.player_choice.input);
        self.player_choice.input = Vec::new();
        self.reset_cursor();
        self.player_choice.input_mode = InputMode::Normal;
    }
}


/// One full adversary turn: the turn is announced and taken from the
/// player, the monster attacks with the given rolls, the death check
/// runs, and unless a death was observed the turn is handed back.
pub open spec fn monster_attack_rel(pre: GameState, post: GameState, hit: int, damage: int) -> bool {
    exists|s1: GameState, s2: GameState, s3: GameState, reported: bool|
        #![trigger switch_turn_rel(pre, s1, false), attack_rel(s1, s2, true, hit, damage), death_check_rel(s2, s3, reported)]
        {
            &&& switch_turn_rel(pre, s1, false)
            &&& attack_rel(s1, s2, true, hit, damage)
            &&& death_check_rel(s2, s3, reported)
            &&& if reported {
                post == s3
            } else {
                switch_turn_rel(s3, post, true)
            }
        }
}

/// One player turn: the player attacks with the given rolls and the
/// death check runs; if the session goes on and the monster survived,
/// one full adversary turn with the counter rolls follows at once.
pub open spec fn player_attack_rel(
    pre: GameState,
    post: GameState,
    hit: int,
    damage: int,
    counter_hit: int,
    counter_damage: int,
) -> bool {
    exists|s1: GameState, s2: GameState, reported: bool|
        #![trigger attack_rel(pre, s1, false, hit, damage), death_check_rel(s1, s2, reported)]
        {
            &&& attack_rel(pre, s1, false, hit, damage)
            &&& death_check_rel(s1, s2, reported)
            &&& if !s2.game_over && s2.current_monster.remaining_health_points > 0 {
                monster_attack_rel(s2, post, counter_hit, counter_damage)
            } else {
                post == s2
            }
        }
}

/// One encounter start: a fresh monster from the given template,
/// initiative announced; when the adversary wins initiative, one
/// adversary attack and death check run before control returns, and
/// the turn passes to the player unless that attack ended the session.
pub open spec fn initiate_rel(
    pre: GameState,
    post: GameState,
    template: int,
    player_starts: bool,
    hit: int,
    damage: int,
) -> bool {
    exists|s1: GameState, s2: GameState|
        #![trigger new_battle_rel(pre, s1, template), initiative_rel(s1, s2, player_starts)]
        {
            &&& new_battle_rel(pre, s1, template)
            &&& initiative_rel(s1, s2, player_starts)
            &&& if player_starts {
                post == s2
            } else {
                exists|s3: GameState, s4: GameState, reported: bool|
                    #![trigger attack_rel(s2, s3, true, hit, damage), death_check_rel(s3, s4, reported)]
                    {
                        &&& attack_rel(s2, s3, true, hit, damage)
                        &&& death_check_rel(s3, s4, reported)
                        &&& if reported {
                            post == s4
                        } else {
                            switch_turn_rel(s4, post, true)
                        }
                    }
            }
        }
}

impl GameState {
    /// Lets the adversary take one full turn with the given rolls,
    /// deterministically: announce, attack, death check, and hand the
    /// turn back unless a death ended it.
    pub fn let_monster_attack_with(&mut self, hit_roll: i32, damage_roll: i32)
        requires
            old(self).wf(),
            !old(self).game_over,
            old(self).current_monster.remaining_health_points >= 1,
            0 <= hit_roll <= 20,
            old(self).current_monster.damage_lo <= damage_roll <= old(
                self,
            ).current_monster.damage_hi,
        ensures
            monster_attack_rel(*old(self), *final(self), hit_roll as int, damage_roll as int),
            final(self).wf(),
            final(self).current_monster == old(self).current_monster,
    {
        switch_attack_turn(self, false);
        let ghost s1 = *self;
        roll_attack_with(self, true, hit_roll, damage_roll);
        let ghost s2 = *self;
        let death_occured = check_for_death(self);
        let ghost s3 = *self;
        if !death_occured {
            switch_attack_turn(self, true);
        }
        proof {
            assert(switch_turn_rel(*old(self), s1, false));
            assert(attack_rel(s1, s2, true, hit_roll as int, damage_roll as int));
            assert(death_check_rel(s2, s3, death_occured));
            assert(monster_attack_rel(
                *old(self),
                *self,
                hit_roll as int,
                damage_roll as int,
            ));
        }
    }

    /// Lets the adversary take one full turn with fresh rolls.
    pub fn let_monster_attack(&mut self)
        requires
            old(self).wf(),
            !old(self).game_over,
            old(self).current_monster.remaining_health_points >= 1,
        ensures
            exists|hit: int, damage: int|
                0 <= hit <= 20 && old(self).current_monster.damage_lo <= damage <= old(
                    self,
                ).current_monster.damage_hi && #[trigger] monster_attack_rel(
                    *old(self),
                    *final(self),
                    hit,
                    damage,
                ),
            final(self).wf(),
            final(self).current_monster == old(self).current_monster,
    {
        let hit_roll = rand_i32_inclusive(0, 20);
        let damage_roll = self.current_monster.get_attack_damage();
        self.let_monster_attack_with(hit_roll, damage_roll);
    }

    /// Lets the player attack with the given rolls, deterministically:
    /// attack, death check, and — if the encounter was not resolved —
    /// one full adversary turn with the counter rolls. Ignored while
    /// input is not accepted or the session has ended.
    pub fn let_player_attack_with(
        &mut self,
        hit_roll: i32,
        damage_roll: i32,
        counter_hit_roll: i32,
        counter_damage_roll: i32,
    )
        requires
            old(self).wf(),
            old(self).player_inputs_accepted && !old(self).game_over ==> old(
                self,
            ).current_monster.remaining_health_points >= 1 && old(self).exp_headroom(),
            0 <= hit_roll <= 20,
            0 <= counter_hit_roll <= 20,
            old(self).player.damage_lo <= damage_roll <= old(self).player.damage_hi,
            old(self).current_monster.damage_lo <= counter_damage_roll <= old(
                self,
            ).current_monster.damage_hi,
        ensures
            old(self).player_inputs_accepted && !old(self).game_over ==> player_attack_rel(
                *old(self),
                *final(self),
                hit_roll as int,
                damage_roll as int,
                counter_hit_roll as int,
                counter_damage_roll as int,
            ),
            !(old(self).player_inputs_accepted && !old(self).game_over) ==> *final(self) == *old(
                self,
            ),
            final(self).wf(),
    {
        if self.player_inputs_accepted && !self.game_over {
            roll_attack_with(self, false, hit_roll, damage_roll);
            let ghost s1 = *self;
            let death_occured = check_for_death(self);
            let ghost s2 = *self;
            if !self.game_over && self.current_monster.remaining_health_points > 0 {
                self.let_monster_attack_with(counter_hit_roll, counter_damage_roll);
            }
            proof {
                assert(attack_rel(*old(self), s1, false, hit_roll as int, damage_roll as int));
                assert(death_check_rel(s1, s2, death_occured));
                assert(player_attack_rel(
                    *old(self),
                    *self,
                    hit_roll as int,
                    damage_roll as int,
                    counter_hit_roll as int,
                    counter_damage_roll as int,
                ));
            }
        }
    }

    /// Lets the player attack with fresh rolls; invoked by activating
    /// the fight menu's attack option.
    pub fn let_player_attack(&mut self)
        requires
            old(self).wf(),
            old(self).player_inputs_accepted && !old(self).game_over ==> old(
                self,
            ).current_monster.remaining_health_points >= 1 && old(self).exp_headroom(),
        ensures
            old(self).player_inputs_accepted && !old(self).game_over ==> exists|
                hit: int,
                damage: int,
                counter_hit: int,
                counter_damage: int,
            |
                0 <= hit <= 20 && 0 <= counter_hit <= 20 && old(self).player.damage_lo <= damage
                    <= old(self).player.damage_hi && old(self).current_monster.damage_lo
                    <= counter_damage <= old(self).current_monster.damage_hi
                    && #[trigger] player_attack_rel(
                    *old(self),
                    *final(self),
                    hit,
                    damage,
                    counter_hit,
                    counter_damage,
                ),
            !(old(self).player_inputs_accepted && !old(self).game_over) ==> *final(self) == *old(
                self,
            ),
            final(self).wf(),
    {
        if self.player_inputs_accepted && !self.game_over {
            let hit_roll = rand_i32_inclusive(0, 20);
            let damage_roll = self.player.get_attack_damage();
            let counter_hit_roll = rand_i32_inclusive(0, 20);
            let counter_damage_roll = self.current_monster.get_attack_damage();
            self.let_player_attack_with(
                hit_roll,
                damage_roll,
                counter_hit_roll,
                counter_damage_roll,
            );
        }
    }

    /// Starts an encounter deterministically: the given template at the
    /// player's level, the given initiative outcome, and — when the
    /// adversary starts — one adversary attack with the given rolls and
    /// its death check before control returns.
    pub fn initiate_with(
        &mut self,
        template: usize,
        player_starts: bool,
        hit_roll: i32,
        damage_roll: i32,
    )
        requires
            old(self).player.wf(),
            old(self).navigation_wf(),
            old(self).player.remaining_health_points >= 1,
            !old(self).game_over,
            template < TEMPLATE_COUNT,
            0 <= hit_roll <= 20,
            1 <= damage_roll <= MONSTER_BASE_RANGE_MAX_POINT + old(self).player.level,
        ensures
            initiate_rel(
                *old(self),
                *final(self),
                template as int,
                player_starts,
                hit_roll as int,
                damage_roll as int,
            ),
            final(self).wf(),
    {
        start_new_battle_with(self, template);
        let ghost s1 = *self;
        roll_initiative_with(self, player_starts);
        let ghost s2 = *self;
        if !player_starts {
            roll_attack_with(self, true, hit_roll, damage_roll);
            let ghost s3 = *self;
            let death_occured = check_for_death(self);
            let ghost s4 = *self;
            if !death_occured {
                switch_attack_turn(self, true);
            }
            proof {
                assert(attack_rel(s2, s3, true, hit_roll as int, damage_roll as int));
                assert(death_check_rel(s3, s4, death_occured));
            }
        }
        proof {
            assert(new_battle_rel(*old(self), s1, template as int));
            assert(initiative_rel(s1, s2, player_starts));
            assert(initiate_rel(
                *old(self),
                *self,
                template as int,
                player_starts,
                hit_roll as int,
                damage_roll as int,
            ));
        }
    }

    /// Starts an encounter: a random monster appears scaled to the
    /// player's level, initiative is rolled, and when the adversary
    /// wins it one full adversary attack and death check run before the
    /// player may act.
    pub fn initiate(&mut self)
        requires
            old(self).player.wf(),
            old(self).navigation_wf(),
            old(self).player.remaining_health_points >= 1,
            !old(self).game_over,
        ensures
            exists|template: int, player_starts: bool, hit: int, damage: int|
                0 <= template < TEMPLATE_COUNT && 0 <= hit <= 20 && 1 <= damage
                    <= MONSTER_BASE_RANGE_MAX_POINT + old(self).player.level
                    && #[trigger] initiate_rel(
                    *old(self),
                    *final(self),
                    template,
                    player_starts,
                    hit,
                    damage,
                ),
            final(self).wf(),
    {
        let template = rand_i32_inclusive(0, (TEMPLATE_COUNT - 1) as i32) as usize;
        let coin = rand_i32_inclusive(0, 1);
        let hit_roll = rand_i32_inclusive(0, 20);
        let damage_roll = rand_i32_inclusive(
            1,
            MONSTER_BASE_RANGE_MAX_POINT + self.player.level as i32,
        );
        self.initiate_with(template, coin == 0, hit_roll, damage_roll);
    }
}


/// The inventory's use option consumed at index `i`: exactly that entry
/// leaves the inventory, its healing applies capped at total health,
/// its use is logged, and control returns to the fight menu with the
/// popup closed.
pub open spec fn use_item_rel(pre: GameState, post: GameState, i: int) -> bool {
    let item = pre.player.inventory@[i];
    &&& post.player.inventory@ == pre.player.inventory@.remove(i)
    &&& post.player == (Player {
        remaining_health_points: item_healed(
            item,
            pre.player.remaining_health_points as int,
            pre.player.total_health_points as int,
        ) as i32,
        inventory: post.player.inventory,
        ..pre.player
    })
    &&& post.log() == pre.log().push(
        neutral_data(item_name(item) + " has been used !("@ + item_description(item) + ")"@),
    )
    &&& post.scroll_state.current_scroll_line == scroll_after(
        pre.events@.len() as int,
        1,
        pre.scroll_state.current_scroll_line as int,
    )
    &&& post.controls_type == ControlType::FightControls(FightButtons::Attack)
    &&& post.popup_type is None
    &&& post.current_monster == pre.current_monster
    &&& post.slained_monsters == pre.slained_monsters
    &&& post.player_inputs_accepted == pre.player_inputs_accepted
    &&& post.game_over == pre.game_over
    &&& post.player_choice == pre.player_choice
}

/// Whether the active selection is a use option indexing an existing
/// inventory entry.
pub open spec fn use_selected(pre: GameState) -> bool {
    match pre.controls_type {
        ControlType::InventoryControls(b) => match b {
            InventoryButtons::Use(i) => i < pre.player.inventory@.len(),
            InventoryButtons::Cancel => false,
        },
        _ => false,
    }
}

/// The index of the active use option. Meaningful only under
/// `use_selected`.
pub open spec fn selected_item_index(pre: GameState) -> int {
    match pre.controls_type {
        ControlType::InventoryControls(b) => match b {
            InventoryButtons::Use(i) => i as int,
            InventoryButtons::Cancel => 0,
        },
        _ => 0,
    }
}

/// What activating the current option does, given that input is
/// accepted and the session has not ended.
pub open spec fn select_rel(pre: GameState, post: GameState) -> bool {
    match pre.controls_type {
        ControlType::FightControls(b) => match b {
            FightButtons::Attack => exists|hit: int, damage: int, counter_hit: int, counter_damage: int|
                0 <= hit <= 20 && 0 <= counter_hit <= 20 && pre.player.damage_lo <= damage
                    <= pre.player.damage_hi && pre.current_monster.damage_lo <= counter_damage
                    <= pre.current_monster.damage_hi && #[trigger] player_attack_rel(
                    pre,
                    post,
                    hit,
                    damage,
                    counter_hit,
                    counter_damage,
                ),
            FightButtons::Inventory => post == (GameState {
                controls_type: ControlType::InventoryControls(InventoryButtons::Cancel),
                popup_type: Some(PopupType::Inventory),
                ..pre
            }),
            FightButtons::Spell => post == pre,
            FightButtons::Flee => post == pre,
        },
        ControlType::MonsterSlayedControls(b) => match b {
            MonsterSlayedButtons::Continue => exists|
                cleared: GameState,
                template: int,
                player_starts: bool,
                hit: int,
                damage: int,
            |
                #![trigger initiate_rel(cleared, post, template, player_starts, hit, damage)]
                {
                    &&& cleared.events@ == Seq::<GameEvent>::empty()
                    &&& cleared.scroll_state == pre.scroll_state
                    &&& cleared.controls_type == ControlType::FightControls(FightButtons::Attack)
                    &&& cleared.popup_type is None
                    &&& cleared.player == pre.player
                    &&& cleared.current_monster == pre.current_monster
                    &&& cleared.slained_monsters == pre.slained_monsters
                    &&& cleared.player_inputs_accepted == pre.player_inputs_accepted
                    &&& cleared.game_over == pre.game_over
                    &&& cleared.player_choice == pre.player_choice
                    &&& 0 <= template < TEMPLATE_COUNT
                    &&& 0 <= hit <= 20
                    &&& 1 <= damage <= MONSTER_BASE_RANGE_MAX_POINT + pre.player.level
                    &&& initiate_rel(cleared, post, template, player_starts, hit, damage)
                },
            MonsterSlayedButtons::Skip => post == pre,
        },
        ControlType::InventoryControls(b) => match b {
            InventoryButtons::Cancel => post == (GameState {
                controls_type: ControlType::FightControls(FightButtons::Attack),
                popup_type: None,
                ..pre
            }),
            InventoryButtons::Use(i) => if i < pre.player.inventory@.len() {
                exists|used: GameState, counter_hit: int, counter_damage: int|
                    #![trigger use_item_rel(pre, used, i as int), monster_attack_rel(used, post, counter_hit, counter_damage)]
                    {
                        &&& use_item_rel(pre, used, i as int)
                        &&& 0 <= counter_hit <= 20
                        &&& pre.current_monster.damage_lo <= counter_damage
                            <= pre.current_monster.damage_hi
                        &&& monster_attack_rel(used, post, counter_hit, counter_damage)
                    }
            } else {
                post == pre
            },
        },
    }
}

impl GameState {
    /// Consumes the inventory entry the use option indexes: removes
    /// exactly that entry, applies its healing capped at total health,
    /// logs its use, and returns control to the fight menu with the
    /// popup closed. A cancel selection, another context, or an index
    /// out of the inventory's bounds is a guarded no-op.
    pub fn use_selected_item(&mut self)
        requires
            old(self).wf(),
            !old(self).game_over,
        ensures
            use_selected(*old(self)) ==> use_item_rel(
                *old(self),
                *final(self),
                selected_item_index(*old(self)),
            ),
            !use_selected(*old(self)) ==> *final(self) == *old(self),
            final(self).wf(),
            !final(self).game_over,
            final(self).current_monster == old(self).current_monster,
    {
        match self.controls_type {
            ControlType::InventoryControls(InventoryButtons::Use(item_index)) => {
                if item_index < self.player.inventory.len() {
                    proof {
                        crate::consts::lemma_pow2_max_level(self.player.level as nat);
                    }
                    let item = self.player.inventory.remove(item_index);
                    item.use_item(self);
                    let line = item.get_name().concat(" has been used !(").concat(
                        item.get_description().as_str(),
                    ).concat(")");
                    proof {
                        assert(line@ =~= item_name(item) + " has been used !("@
                            + item_description(item) + ")"@);
                    }
                    let event = GameEvent::neutral(line.as_str());
                    self.add_event(event);
                    self.controls_type = ControlType::FightControls(FightButtons::Attack);
                    self.popup_type = None;
                }
            },
            _ => {},
        }
    }

    /// Activates the highlighted option of the active context: attack,
    /// open the inventory, continue to the next encounter, cancel the
    /// popup, or use the indexed item (which costs the turn — the
    /// adversary attacks at once). Ignored while input is not accepted
    /// or the session has ended.
    pub fn select_button(&mut self)
        requires
            old(self).wf(),
            old(self).player_inputs_accepted && !old(self).game_over && old(self).controls_type
                == ControlType::FightControls(FightButtons::Attack) ==> old(self).exp_headroom(),
        ensures
            old(self).player_inputs_accepted && !old(self).game_over ==> select_rel(
                *old(self),
                *final(self),
            ),
            !(old(self).player_inputs_accepted && !old(self).game_over) ==> *final(self) == *old(
                self,
            ),
            final(self).wf(),
    {
        if !self.player_inputs_accepted || self.game_over {
            return ;
        }
        match self.controls_type {
            ControlType::FightControls(selected) => match selected {
                FightButtons::Attack => {
                    self.let_player_attack();
                },
                FightButtons::Inventory => {
                    self.controls_type = ControlType::InventoryControls(InventoryButtons::Cancel);
                    self.popup_type = Some(PopupType::Inventory);
                },
                FightButtons::Spell => {},
                FightButtons::Flee => {},
            },
            ControlType::MonsterSlayedControls(selected) => match selected {
                MonsterSlayedButtons::Continue => {
                    self.controls_type = ControlType::FightControls(FightButtons::Attack);
                    self.popup_type = None;
                    self.events = Vec::new();
                    let ghost cleared = *self;
                    self.initiate();
                    proof {
                        assert(select_rel(*old(self), *self)) by {
                            let (template, player_starts, hit, damage) = choose|
                                template: int,
                                player_starts: bool,
                                hit: int,
                                damage: int,
                            |
                                0 <= template < TEMPLATE_COUNT && 0 <= hit <= 20 && 1 <= damage
                                    <= MONSTER_BASE_RANGE_MAX_POINT + cleared.player.level
                                    && #[trigger] initiate_rel(
                                    cleared,
                                    *self,
                                    template,
                                    player_starts,
                                    hit,
                                    damage,
                                );
                            assert(initiate_rel(cleared, *self, template, player_starts, hit, damage));
                        }
                    }
                },
                MonsterSlayedButtons::Skip => {},
            },
            ControlType::InventoryControls(selected) => match selected {
                InventoryButtons::Cancel => {
                    self.controls_type = ControlType::FightControls(FightButtons::Attack);
                    self.popup_type = None;
                },
                InventoryButtons::Use(item_index) => {
                    if item_index < self.player.inventory.len() {
                        self.use_selected_item();
                        let ghost used = *self;
                        self.let_monster_attack();
                        proof {
                            assert(use_item_rel(*old(self), used, item_index as int));
                        }
                    }
                },
            },
        }
    }
}


impl Default for GameState {
    /// A fresh session: a level-one unnamed player at full health, a
    /// random placeholder monster, the opening log lines, no popup, the
    /// fight menu on attack, and input not yet accepted.
    fn default() -> (s: GameState)
        ensures
            s.wf(),
            !s.player_inputs_accepted,
            !s.game_over,
            s.controls_type == ControlType::FightControls(FightButtons::Attack),
            s.popup_type is None,
            s.player.level == 1,
            s.player.remaining_health_points == s.player.total_health_points,
            s.player.total_health_points == 20,
            s.player.damage_lo == 1,
            s.player.damage_hi == 4,
            s.player.experience == 0,
            s.player.experience_to_level_up == 20,
            s.player.name@ == Seq::<char>::empty(),
            s.player.inventory@ == Seq::<Item>::empty(),
            exists|i: int| 0 <= i < TEMPLATE_COUNT && #[trigger] is_initial_monster(s.current_monster, i),
            s.log() == seq![
                neutral_data("New game is starting..."@),
                neutral_data(""@),
            ],
            s.scroll_state.current_scroll_line == 0,
            s.slained_monsters@ == Seq::<Monster>::empty(),
            s.player_choice.input@ == Seq::<char>::empty(),
            s.player_choice.cursor_position == 0,
            s.player_choice.input_mode == InputMode::Editing,
    {
        let mut events: Vec<GameEvent> = Vec::new();
        initiate_logs(&mut events);
        proof {
            assert(events@.map_values(|e: GameEvent| e.data()) =~= seq![
                neutral_data("New game is starting..."@),
                neutral_data(""@),
            ]);
        }
        let player = Player::create_player(String::new());
        GameState {
            current_monster: get_initial_monster(),
            player,
            scroll_state: ScrollState { current_scroll_line: 0 },
            events,
            slained_monsters: Vec::new(),
            player_inputs_accepted: false,
            game_over: false,
            player_choice: PlayerChoice {
                input: Vec::new(),
                input_mode: InputMode::Editing,
                cursor_position: 0,
            },
            popup_type: None,
            controls_type: ControlType::FightControls(FightButtons::Attack),
        }
    }
}

/// A cursor position clamped to the buffer's end.
pub open spec fn clamped_cursor(pc: PlayerChoice, pos: int) -> int {
    if pos <= pc.input@.len() {
        pos
    } else {
        pc.input@.len() as int
    }
}

/// Every field outside the name-entry state is equal.
pub open spec fn unchanged_outside_choice(pre: GameState, post: GameState) -> bool {
    &&& post.player == pre.player
    &&& post.scroll_state == pre.scroll_state
    &&& post.events == pre.events
    &&& post.current_monster == pre.current_monster
    &&& post.slained_monsters == pre.slained_monsters
    &&& post.player_inputs_accepted == pre.player_inputs_accepted
    &&& post.game_over == pre.game_over
    &&& post.popup_type == pre.popup_type
    &&& post.controls_type == pre.controls_type
}

/// Every field outside the name-entry state and the player is equal.
pub open spec fn unchanged_outside_choice_and_player(pre: GameState, post: GameState) -> bool {
    &&& post.scroll_state == pre.scroll_state
    &&& post.events == pre.events
    &&& post.current_monster == pre.current_monster
    &&& post.slained_monsters == pre.slained_monsters
    &&& post.player_inputs_accepted == pre.player_inputs_accepted
    &&& post.game_over == pre.game_over
    &&& post.popup_type == pre.popup_type
    &&& post.controls_type == pre.controls_type
}

/// The display position of a fight-menu option.
fn fight_button_index(b: &FightButtons) -> (i: usize)
    ensures
        i == fight_index(*b),
{
    match b {
        FightButtons::Attack => 0,
        FightButtons::Spell => 1,
        FightButtons::Inventory => 2,
        FightButtons::Flee => 3,
    }
}

/// The fight-menu option at a display position.
fn fight_button_at(i: usize) -> (b: FightButtons)
    requires
        i < 4,
    ensures
        b == fight_at(i as int),
{
    if i == 0 {
        FightButtons::Attack
    } else if i == 1 {
        FightButtons::Spell
    } else if i == 2 {
        FightButtons::Inventory
    } else {
        FightButtons::Flee
    }
}

/// The display position of a loot-popup option.
fn slayed_button_index(b: &MonsterSlayedButtons) -> (i: usize)
    ensures
        i == slayed_index(*b),
{
    match b {
        MonsterSlayedButtons::Continue => 0,
        MonsterSlayedButtons::Skip => 1,
    }
}

/// The first option of a control context, in display order; for the
/// inventory every use option counts as first, whatever item it indexes.
pub open spec fn is_first_option(c: ControlType) -> bool {
    match c {
        ControlType::FightControls(b) => b == FightButtons::Attack,
        ControlType::MonsterSlayedControls(b) => b == MonsterSlayedButtons::Continue,
        ControlType::InventoryControls(b) => b is Use,
    }
}

/// The last option of a control context, in display order.
pub open spec fn is_last_option(c: ControlType) -> bool {
    match c {
        ControlType::FightControls(b) => b == FightButtons::Flee,
        ControlType::MonsterSlayedControls(b) => b == MonsterSlayedButtons::Skip,
        ControlType::InventoryControls(b) => b == InventoryButtons::Cancel,
    }
}

/// Law: a horizontal step left from the first option, or right from the
/// last, leaves the selection unchanged, in every control context — so
/// repeating such moves any number of times also leaves it unchanged.
pub proof fn lemma_navigation_clamps(c: ControlType)
    ensures
        is_first_option(c) ==> nav_horizontal(c, -1) == c,
        is_last_option(c) ==> nav_horizontal(c, 1) == c,
{
}

} // verus!

//! Consumable items and their effects. Items are value objects: a copy
//! is as good as the original, and their names, descriptions and healing
//! effects are fixed per variant.

use vstd::prelude::*;
use vstd::string::StringExecFns;

use crate::game_state::GameState;
use crate::player::Player;

verus! {

/// A health potion, by size.
#[derive(Clone, Copy, PartialEq, Eq, Debug)]
pub enum HealthPotion {
    SmallPotion,
    MediumPotion,
    GiantPotion,
}

/// A consumable item of the inventory.
#[derive(Clone, Copy, PartialEq, Eq, Debug)]
pub enum Item {
    Potion(HealthPotion),
}

/// The remaining health after drinking the potion at `remaining` out of
/// `total` health: healing is capped at total health, and the giant
/// potion restores everything.
pub open spec fn potion_healed(potion: HealthPotion, remaining: int, total: int) -> int {
    match potion {
        HealthPotion::SmallPotion => if remaining + 10 > total {
            total
        } else {
            remaining + 10
        },
        HealthPotion::MediumPotion => if remaining + 50 > total {
            total
        } else {
            remaining + 50
        },
        HealthPotion::GiantPotion => total,
    }
}

/// The remaining health after using the item at `remaining` out of
/// `total` health.
pub open spec fn item_healed(item: Item, remaining: int, total: int) -> int {
    match item {
        Item::Potion(potion) => potion_healed(potion, remaining, total),
    }
}

/// The display name of a potion.
pub open spec fn potion_name(potion: HealthPotion) -> Seq<char> {
    match potion {
        HealthPotion::SmallPotion => "Small health potion"@,
        HealthPotion::MediumPotion => "Medium health potion"@,
        HealthPotion::GiantPotion => "Giant health potion"@,
    }
}

/// The display description of a potion.
pub open spec fn potion_description(potion: HealthPotion) -> Seq<char> {
    match potion {
        HealthPotion::SmallPotion => "Restores 10 HP"@,
        HealthPotion::MediumPotion => "Restores 50 HP"@,
        HealthPotion::GiantPotion => "Restores all HP"@,
    }
}

/// The display name of an item.
pub open spec fn item_name(item: Item) -> Seq<char> {
    match item {
        Item::Potion(potion) => potion_name(potion),
    }
}

/// The display description of an item.
pub open spec fn item_description(item: Item) -> Seq<char> {
    match item {
        Item::Potion(potion) => potion_description(potion),
    }
}

/// What every consumable offers: a display name, a description, and a
/// stateful effect on the session's player.
pub trait ItemActions {
    /// The display name.
    spec fn name_spec(&self) -> Seq<char>;

    /// The display description.
    spec fn description_spec(&self) -> Seq<char>;

    /// The player's remaining health after the effect, given remaining
    /// and total health.
    spec fn heal_spec(&self, remaining: int, total: int) -> int;

    /// Returns the display name.
    fn get_name(&self) -> (r: String)
        ensures
            r@ == self.name_spec(),
    ;

    /// Returns the display description.
    fn get_description(&self) -> (r: String)
        ensures
            r@ == self.description_spec(),
    ;

    /// Applies the effect to the session's player: their remaining
    /// health becomes the healed value, and nothing else changes.
    fn use_item(&self, state: &mut GameState)
        requires
            old(state).player.remaining_health_points <= old(state).player.total_health_points,
            old(state).player.total_health_points <= i32::MAX - 50,
        ensures
            final(state).player == (Player {
                remaining_health_points: self.heal_spec(
                    old(state).player.remaining_health_points as int,
                    old(state).player.total_health_points as int,
                ) as i32,
                ..old(state).player
            }),
            final(state).scroll_state == old(state).scroll_state,
            final(state).events == old(state).events,
            final(state).current_monster == old(state).current_monster,
            final(state).slained_monsters == old(state).slained_monsters,
            final(state).player_inputs_accepted == old(state).player_inputs_accepted,
            final(state).game_over == old(state).game_over,
            final(state).player_choice == old(state).player_choice,
            final(state).popup_type == old(state).popup_type,
            final(state).controls_type == old(state).controls_type,
    ;
}

impl ItemActions for Item {
    open spec fn name_spec(&self) -> Seq<char> {
        item_name(*self)
    }

    open spec fn description_spec(&self) -> Seq<char> {
        item_description(*self)
    }

    open spec fn heal_spec(&self, remaining: int, total: int) -> int {
        item_healed(*self, remaining, total)
    }

    fn get_name(&self) -> (r: String) {
        match self {
            Item::Potion(potion) => potion.get_name(),
        }
    }

    fn get_description(&self) -> (r: String) {
        match self {
            Item::Potion(potion) => potion.get_description(),
        }
    }

    fn use_item(&self, state: &mut GameState) {
        match self {
            Item::Potion(potion) => potion.use_item(state),
        }
    }
}

impl ItemActions for HealthPotion {
    open spec fn name_spec(&self) -> Seq<char> {
        potion_name(*self)
    }

    open spec fn description_spec(&self) -> Seq<char> {
        potion_description(*self)
    }

    open spec fn heal_spec(&self, remaining: int, total: int) -> int {
        potion_healed(*self, remaining, total)
    }

    fn get_name(&self) -> (r: String) {
        match self {
            HealthPotion::SmallPotion => String::from_str("Small health potion"),
            HealthPotion::MediumPotion => String::from_str("Medium health potion"),
            HealthPotion::GiantPotion => String::from_str("Giant health potion"),
        }
    }

    fn get_description(&self) -> (r: String) {
        match self {
            HealthPotion::SmallPotion => String::from_str("Restores 10 HP"),
            HealthPotion::MediumPotion => String::from_str("Restores 50 HP"),
            HealthPotion::GiantPotion => String::from_str("Restores all HP"),
        }
    }

    fn use_item(&self, state: &mut GameState) {
        match self {
            HealthPotion::SmallPotion => {
                if state.player.remaining_health_points + 10 > state.player.total_health_points {
                    state.player.remaining_health_points = state.player.total_health_points;
                } else {
                    state.player.remaining_health_points =
                        state.player.remaining_health_points + 10;
                }
            },
            HealthPotion::MediumPotion => {
                if state.player.remaining_health_points + 50 > state.player.total_health_points {
                    state.player.remaining_health_points = state.player.total_health_points;
                } else {
                    state.player.remaining_health_points =
                        state.player.remaining_health_points + 50;
                }
            },
            HealthPotion::GiantPotion => {
                state.player.remaining_health_points = state.player.total_health_points;
            },
        }
    }
}

} // verus!

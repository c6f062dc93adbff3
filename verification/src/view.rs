//! The read-only view a combatant exposes for rendering: plain stats
//! that the presentation layer draws without touching the session.

use vstd::prelude::*;

use crate::monster::Monster;
use crate::player::Player;

verus! {

/// A combatant's stats flattened for display. The optional fields are
/// filled only where they mean something: experience for the player,
/// descriptive text for a monster.
pub struct FighterInfo {
    pub remaining_health_points: i32,
    pub total_health_points: i32,
    /// Inclusive lower bound of the damage range.
    pub damage_lo: i32,
    /// Inclusive upper bound of the damage range.
    pub damage_hi: i32,
    pub experience: Option<i32>,
    pub experience_to_level_up: Option<i32>,
    pub level: usize,
    pub name: String,
    pub description: Option<String>,
}

/// Anything that can present itself to the fight screen.
pub trait FightInfo {
    /// The view this combatant presents.
    spec fn fighter_info_spec(&self) -> FighterInfo;

    /// Builds the display view of this combatant.
    fn get_fighter_info(&self) -> (r: FighterInfo)
        ensures
            r == self.fighter_info_spec(),
    ;
}

impl FightInfo for Player {
    open spec fn fighter_info_spec(&self) -> FighterInfo {
        FighterInfo {
            remaining_health_points: self.remaining_health_points,
            total_health_points: self.total_health_points,
            damage_lo: self.damage_lo,
            damage_hi: self.damage_hi,
            experience: Some(self.experience),
            experience_to_level_up: None,
            level: self.level,
            name: self.name,
            description: None,
        }
    }

    fn get_fighter_info(&self) -> (r: FighterInfo) {
        FighterInfo {
            remaining_health_points: self.remaining_health_points,
            total_health_points: self.total_health_points,
            damage_lo: self.damage_lo,
            damage_hi: self.damage_hi,
            experience: Some(self.experience),
            experience_to_level_up: None,
            level: self.level,
            name: self.name.clone(),
            description: None,
        }
    }
}

impl FightInfo for Monster {
    open spec fn fighter_info_spec(&self) -> FighterInfo {
        FighterInfo {
            remaining_health_points: self.remaining_health_points,
            total_health_points: self.total_health_points,
            damage_lo: self.damage_lo,
            damage_hi: self.damage_hi,
            experience: None,
            experience_to_level_up: None,
            level: self.level,
            name: self.name,
            description: Some(self.description),
        }
    }

    fn get_fighter_info(&self) -> (r: FighterInfo) {
        FighterInfo {
            remaining_health_points: self.remaining_health_points,
            total_health_points: self.total_health_points,
            damage_lo: self.damage_lo,
            damage_hi: self.damage_hi,
            experience: None,
            experience_to_level_up: None,
            level: self.level,
            name: self.name.clone(),
            description: Some(self.description.clone()),
        }
    }
}

} // verus!

//! The player: a combatant with experience, leveling and an inventory.
//! Health and the experience requirement double with each level; the
//! damage range's upper bound grows by one per level.

use vstd::prelude::*;

use crate::consts::{
    lemma_pow2_max_level, lemma_pow2_monotone, pow2, pow2_i32, MAX_LEVEL, PLAYER_BASE_EXPERIENCE_NECESSARY,
    PLAYER_BASE_HEALTH_POINT, PLAYER_BASE_RANGE_MAX_POINT,
};
use crate::items::Item;
use crate::random::rand_i32_inclusive;

verus! {

/// The shared capability of anything that can attack and take damage.
pub trait Attack {
    /// Lower bound of the damage range, inclusive.
    spec fn damage_lo_spec(&self) -> int;

    /// Upper bound of the damage range, inclusive.
    spec fn damage_hi_spec(&self) -> int;

    /// Remaining health points.
    spec fn remaining_spec(&self) -> int;

    /// Total health points.
    spec fn total_spec(&self) -> int;

    /// Draws the damage of one hit from the combatant's damage range.
    fn get_attack_damage(&self) -> (r: i32)
        requires
            self.damage_lo_spec() <= self.damage_hi_spec(),
        ensures
            self.damage_lo_spec() <= r as int <= self.damage_hi_spec(),
    ;

    /// Applies damage: remaining health drops by exactly the damage
    /// taken, and may transiently go negative until the death check runs.
    fn receive_damage(&mut self, attack_damage: i32)
        requires
            i32::MIN <= old(self).remaining_spec() - attack_damage <= i32::MAX,
        ensures
            final(self).remaining_spec() == old(self).remaining_spec() - attack_damage,
    ;

    /// Reads the remaining health points.
    fn get_remaining_health_points(&self) -> (r: i32)
        ensures
            r as int == self.remaining_spec(),
    ;

    /// Reads the total health points.
    fn get_total_health_points(&self) -> (r: i32)
        ensures
            r as int == self.total_spec(),
    ;
}

/// The player's state for the whole session.
pub struct Player {
    pub remaining_health_points: i32,
    pub total_health_points: i32,
    /// Inclusive lower bound of the damage range.
    pub damage_lo: i32,
    /// Inclusive upper bound of the damage range.
    pub damage_hi: i32,
    /// Experience accumulated within the current level.
    pub experience: i32,
    pub level: usize,
    pub name: String,
    /// Experience still required to reach the next level.
    pub experience_to_level_up: i32,
    /// The ordered inventory, owned exclusively by the player.
    pub inventory: Vec<Item>,
}

impl Player {
    /// Well-formedness: the stat formulas of the current level hold, no
    /// more health remains than the total, and the experience counters
    /// are within their level's bounds.
    pub open spec fn wf(self) -> bool {
        &&& 1 <= self.level <= MAX_LEVEL
        &&& self.damage_lo == 1
        &&& self.damage_hi == PLAYER_BASE_RANGE_MAX_POINT + self.level
        &&& self.total_health_points == PLAYER_BASE_HEALTH_POINT * pow2(self.level as nat)
        &&& self.remaining_health_points <= self.total_health_points
        &&& 0 <= self.experience
        &&& 0 <= self.experience_to_level_up
            <= PLAYER_BASE_EXPERIENCE_NECESSARY * pow2(self.level as nat)
    }
}

/// The player after a grant of `g` experience points, against a
/// requirement of `E = experience_to_level_up`. A grant below the
/// requirement only accumulates; a grant of at least the requirement
/// raises the level by exactly one and recomputes total health and the
/// damage range from the new level. The magnitude of a negative
/// remainder becomes the carried-over experience, with the requirement
/// recomputed; a grant of exactly the requirement carries nothing and
/// leaves the requirement at zero. At most one level transition happens
/// per grant.
pub open spec fn player_after_exp(p: Player, g: int) -> Player {
    let e = p.experience_to_level_up as int;
    if g < e {
        Player {
            experience: (p.experience + g) as i32,
            experience_to_level_up: (e - g) as i32,
            ..p
        }
    } else {
        let new_level = (p.level + 1) as usize;
        let leveled = Player {
            level: new_level,
            total_health_points: (PLAYER_BASE_HEALTH_POINT * pow2(new_level as nat)) as i32,
            damage_lo: 1,
            damage_hi: (PLAYER_BASE_RANGE_MAX_POINT + new_level) as i32,
            ..p
        };
        if g > e {
            Player {
                experience: (g - e) as i32,
                experience_to_level_up: (PLAYER_BASE_EXPERIENCE_NECESSARY * pow2(
                    new_level as nat,
                )) as i32,
                ..leveled
            }
        } else {
            Player { experience_to_level_up: 0, ..leveled }
        }
    }
}

/// Law: a grant of at least the experience requirement `E` raises the
/// level by exactly one. A grant above `E` carries the excess over as
/// the new level's accumulated experience and recomputes the
/// requirement; a grant of exactly `E` carries nothing and leaves the
/// requirement at zero.
pub proof fn lemma_leveling(p: Player, g: int)
    requires
        p.wf(),
        0 <= g <= i32::MAX,
        g >= p.experience_to_level_up,
    ensures
        player_after_exp(p, g).level == p.level + 1,
        g > p.experience_to_level_up ==> player_after_exp(p, g).experience == g
            - p.experience_to_level_up,
        g == p.experience_to_level_up ==> player_after_exp(p, g).experience == p.experience
            && player_after_exp(p, g).experience_to_level_up == 0,
{
}

impl Attack for Player {
    open spec fn damage_lo_spec(&self) -> int {
        self.damage_lo as int
    }

    open spec fn damage_hi_spec(&self) -> int {
        self.damage_hi as int
    }

    open spec fn remaining_spec(&self) -> int {
        self.remaining_health_points as int
    }

    open spec fn total_spec(&self) -> int {
        self.total_health_points as int
    }

    fn get_attack_damage(&self) -> (r: i32) {
        rand_i32_inclusive(self.damage_lo, self.damage_hi)
    }

    fn receive_damage(&mut self, attack_damage: i32) {
        self.remaining_health_points = self.remaining_health_points - attack_damage;
    }

    fn get_remaining_health_points(&self) -> (r: i32) {
        self.remaining_health_points
    }

    fn get_total_health_points(&self) -> (r: i32) {
        self.total_health_points
    }
}

impl Player {
    /// Grants experience. The requirement drops by the grant; when it
    /// reaches or passes zero the player levels up exactly once,
    /// recomputing total health, damage range, requirement and
    /// carried-over experience from the new level's formulas.
    pub fn receive_experience(&mut self, experience_gained: i32)
        requires
            old(self).wf(),
            0 <= experience_gained,
            old(self).level < MAX_LEVEL,
            experience_gained < old(self).experience_to_level_up ==> old(self).experience
                + experience_gained <= i32::MAX,
        ensures
            *final(self) == player_after_exp(*old(self), experience_gained as int),
            final(self).wf(),
    {
        proof {
            lemma_pow2_max_level(old(self).level as nat);
            lemma_pow2_max_level((old(self).level + 1) as nat);
            lemma_pow2_monotone(old(self).level as nat, (old(self).level + 1) as nat);
        }
        self.experience_to_level_up = self.experience_to_level_up - experience_gained;
        if self.experience_to_level_up <= 0 {
            self.level = self.level + 1;
            self.total_health_points = PLAYER_BASE_HEALTH_POINT * pow2_i32(self.level as u32);
            self.damage_lo = 1;
            self.damage_hi = PLAYER_BASE_RANGE_MAX_POINT + self.level as i32;
            if self.experience_to_level_up < 0 {
                self.experience = -self.experience_to_level_up;
                self.experience_to_level_up = PLAYER_BASE_EXPERIENCE_NECESSARY * pow2_i32(
                    self.level as u32,
                );
            }
        } else {
            self.experience = self.experience + experience_gained;
        }
    }

    /// A fresh level-one player with the given name, full health, an
    /// empty inventory and no experience.
    pub fn create_player(name: String) -> (p: Player)
        ensures
            p.wf(),
            p.level == 1,
            p.remaining_health_points == p.total_health_points,
            p.total_health_points == 2 * PLAYER_BASE_HEALTH_POINT,
            p.damage_lo == 1,
            p.damage_hi == PLAYER_BASE_RANGE_MAX_POINT + 1,
            p.experience == 0,
            p.experience_to_level_up == 2 * PLAYER_BASE_EXPERIENCE_NECESSARY,
            p.name@ == name@,
            p.inventory@ =~= Seq::<Item>::empty(),
    {
        proof {
            assert(pow2(1) == 2) by {
                reveal_with_fuel(pow2, 2);
            }
        }
        let health = PLAYER_BASE_HEALTH_POINT * pow2_i32(1);
        Player {
            remaining_health_points: health,
            total_health_points: health,
            damage_lo: 1,
            damage_hi: PLAYER_BASE_RANGE_MAX_POINT + 1,
            name,
            level: 1,
            experience: 0,
            experience_to_level_up: PLAYER_BASE_EXPERIENCE_NECESSARY * pow2_i32(1),
            inventory: Vec::new(),
        }
    }
}

} // verus!

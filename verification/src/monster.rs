//! Monsters and the encounter table: a fixed catalog of ten templates,
//! chosen uniformly at random and scaled to the player's current level.

use vstd::prelude::*;
use vstd::string::StringExecFns;

use crate::consts::{
    lemma_pow2_max_level, pow2, pow2_i32, MAX_LEVEL, MONSTER_BASE_EXPERIENCE_GIVEN,
    MONSTER_BASE_HEALTH_POINT, MONSTER_BASE_RANGE_MAX_POINT,
};
use crate::game_state::GameState;
use crate::items::{HealthPotion, Item};
use crate::player::Attack;
use crate::random::rand_i32_inclusive;

verus! {

/// What a defeated monster grants: whether the kill raised the player's
/// level, and an optional dropped item. Computed once, when the
/// monster's health reaches zero, and immutable afterwards.
#[derive(Clone, Copy, PartialEq, Eq, Debug)]
pub struct Loot {
    pub level_up: bool,
    pub item: Option<Item>,
}

/// The adversary of one encounter.
#[derive(Clone)]
pub struct Monster {
    pub name: String,
    pub remaining_health_points: i32,
    pub total_health_points: i32,
    /// Inclusive lower bound of the damage range.
    pub damage_lo: i32,
    /// Inclusive upper bound of the damage range.
    pub damage_hi: i32,
    pub level: usize,
    pub description: String,
    /// Experience granted to the player on this monster's defeat.
    pub experience_given: i32,
    pub loot: Loot,
}

/// How many templates the encounter table holds.
pub const TEMPLATE_COUNT: usize = 10;

/// The name of the encounter table's template `i`.
pub open spec fn template_name(i: int) -> Seq<char> {
    if i == 0 {
        "Greta the Fierce"@
    } else if i == 1 {
        "Zog the Mischievous"@
    } else if i == 2 {
        "Spike the Spiky"@
    } else if i == 3 {
        "Mystica the Enigmatic"@
    } else if i == 4 {
        "Fluffy the Fluffball"@
    } else if i == 5 {
        "Squeaky the Noisy"@
    } else if i == 6 {
        "Glimmer the Shiny"@
    } else if i == 7 {
        "Sandy the Sandman"@
    } else if i == 8 {
        "Whiskers the Whiskered"@
    } else {
        "Gloop the Gooey"@
    }
}

/// The descriptive text of the encounter table's template `i`.
pub open spec fn template_description(i: int) -> Seq<char> {
    if i == 0 {
        "A formidable warrior from the northern realms, known for her unmatched strength and courage."@
    } else if i == 1 {
        "A cunning trickster who enjoys playing pranks on lost travelers."@
    } else if i == 2 {
        "A spiky monster that loves hugs (caution, it's prickly!)."@
    } else if i == 3 {
        "A mysterious creature that speaks in riddles and grants wishes."@
    } else if i == 4 {
        "A giant furball with an insatiable appetite for treats."@
    } else if i == 5 {
        "A monster that emits strange and confusing noises at all times."@
    } else if i == 6 {
        "A shiny creature that captivates attention with its dazzling glow."@
    } else if i == 7 {
        "A dream guardian who can make you experience your wildest dreams."@
    } else if i == 8 {
        "A giant feline with long whiskers that predicts the weather."@
    } else {
        "A gooey creature that can transform into anything."@
    }
}

/// The drop table entry of the encounter table's template `i`.
pub open spec fn template_loot(i: int) -> Loot {
    if i == 3 || i == 5 || i == 8 {
        Loot { level_up: false, item: None }
    } else if i == 4 {
        Loot { level_up: false, item: Some(Item::Potion(HealthPotion::MediumPotion)) }
    } else if i == 9 {
        Loot { level_up: false, item: Some(Item::Potion(HealthPotion::GiantPotion)) }
    } else {
        Loot { level_up: false, item: Some(Item::Potion(HealthPotion::SmallPotion)) }
    }
}

/// The monster built from template `i`, scaled to `level`: health and
/// experience reward double with the level, the damage range's upper
/// bound grows by one per level, and the starting health is the fixed
/// encounter value.
pub open spec fn is_template_monster(m: Monster, i: int, level: int) -> bool {
    &&& m.name@ == template_name(i)
    &&& m.description@ == template_description(i)
    &&& m.loot == template_loot(i)
    &&& m.level == level
    &&& m.remaining_health_points == 5
    &&& m.total_health_points == MONSTER_BASE_HEALTH_POINT * pow2(level as nat)
    &&& m.experience_given == MONSTER_BASE_EXPERIENCE_GIVEN * pow2(level as nat)
    &&& m.damage_lo == 1
    &&& m.damage_hi == MONSTER_BASE_RANGE_MAX_POINT + level
}

/// The placeholder monster shown before the first encounter: a template
/// at level one, with the starting damage range's doubled bound.
pub open spec fn is_initial_monster(m: Monster, i: int) -> bool {
    &&& m.name@ == template_name(i)
    &&& m.description@ == template_description(i)
    &&& m.loot == template_loot(i)
    &&& m.level == 1
    &&& m.remaining_health_points == 5
    &&& m.total_health_points == MONSTER_BASE_HEALTH_POINT * 2
    &&& m.experience_given == MONSTER_BASE_EXPERIENCE_GIVEN * 2
    &&& m.damage_lo == 1
    &&& m.damage_hi == MONSTER_BASE_RANGE_MAX_POINT * 2
}

impl Monster {
    /// Well-formedness: the scaling formulas of the monster's level
    /// hold and remaining health stays near or below the total.
    pub open spec fn wf(self) -> bool {
        &&& 1 <= self.level <= MAX_LEVEL
        &&& self.damage_lo == 1
        &&& 1 <= self.damage_hi <= 100
        &&& self.total_health_points == MONSTER_BASE_HEALTH_POINT * pow2(self.level as nat)
        &&& self.experience_given == MONSTER_BASE_EXPERIENCE_GIVEN * pow2(self.level as nat)
        &&& -1000 <= self.remaining_health_points <= self.total_health_points
    }
}

impl Monster {
    /// An equal copy of this monster, for the defeated-monsters log.
    pub fn duplicate(&self) -> (m: Monster)
        ensures
            m == *self,
    {
        Monster {
            name: self.name.clone(),
            description: self.description.clone(),
            remaining_health_points: self.remaining_health_points,
            total_health_points: self.total_health_points,
            damage_lo: self.damage_lo,
            damage_hi: self.damage_hi,
            level: self.level,
            experience_given: self.experience_given,
            loot: self.loot,
        }
    }
}

impl Attack for Monster {
    open spec fn damage_lo_spec(&self) -> int {
        self.damage_lo as int
    }

    open spec fn damage_hi_spec(&self) -> int {
        self.damage_hi as int
    }

    open spec fn remaining_spec(&self) -> int {
        self.remaining_health_points as int
    }

    open spec fn total_spec(&self) -> int {
        self.total_health_points as int
    }

    fn get_attack_damage(&self) -> (r: i32) {
        rand_i32_inclusive(self.damage_lo, self.damage_hi)
    }

    fn receive_damage(&mut self, attack_damage: i32) {
        self.remaining_health_points = self.remaining_health_points - attack_damage;
    }

    fn get_remaining_health_points(&self) -> (r: i32) {
        self.remaining_health_points
    }

    fn get_total_health_points(&self) -> (r: i32) {
        self.total_health_points
    }
}

/// The name, descriptive text and drop table entry of template `i`.
fn template_parts(i: usize) -> (r: (&'static str, &'static str, Loot))
    requires
        i < TEMPLATE_COUNT,
    ensures
        r.0@ == template_name(i as int),
        r.1@ == template_description(i as int),
        r.2 == template_loot(i as int),
{
    if i == 0 {
        (
            "Greta the Fierce",
            "A formidable warrior from the northern realms, known for her unmatched strength and courage.",
            Loot { level_up: false, item: Some(Item::Potion(HealthPotion::SmallPotion)) },
        )
    } else if i == 1 {
        (
            "Zog the Mischievous",
            "A cunning trickster who enjoys playing pranks on lost travelers.",
            Loot { level_up: false, item: Some(Item::Potion(HealthPotion::SmallPotion)) },
        )
    } else if i == 2 {
        (
            "Spike the Spiky",
            "A spiky monster that loves hugs (caution, it's prickly!).",
            Loot { level_up: false, item: Some(Item::Potion(HealthPotion::SmallPotion)) },
        )
    } else if i == 3 {
        (
            "Mystica the Enigmatic",
            "A mysterious creature that speaks in riddles and grants wishes.",
            Loot { level_up: false, item: None },
        )
    } else if i == 4 {
        (
            "Fluffy the Fluffball",
            "A giant furball with an insatiable appetite for treats.",
            Loot { level_up: false, item: Some(Item::Potion(HealthPotion::MediumPotion)) },
        )
    } else if i == 5 {
        (
            "Squeaky the Noisy",
            "A monster that emits strange and confusing noises at all times.",
            Loot { level_up: false, item: None },
        )
    } else if i == 6 {
        (
            "Glimmer the Shiny",
            "A shiny creature that captivates attention with its dazzling glow.",
            Loot { level_up: false, item: Some(Item::Potion(HealthPotion::SmallPotion)) },
        )
    } else if i == 7 {
        (
            "Sandy the Sandman",
            "A dream guardian who can make you experience your wildest dreams.",
            Loot { level_up: false, item: Some(Item::Potion(HealthPotion::SmallPotion)) },
        )
    } else if i == 8 {
        (
            "Whiskers the Whiskered",
            "A giant feline with long whiskers that predicts the weather.",
            Loot { level_up: false, item: None },
        )
    } else {
        (
            "Gloop the Gooey",
            "A gooey creature that can transform into anything.",
            Loot { level_up: false, item: Some(Item::Potion(HealthPotion::GiantPotion)) },
        )
    }
}

/// Builds the monster of template `i` scaled to the given level.
pub fn monster_from_template(i: usize, level: usize) -> (m: Monster)
    requires
        i < TEMPLATE_COUNT,
        1 <= level <= MAX_LEVEL,
    ensures
        is_template_monster(m, i as int, level as int),
        m.wf(),
{
    let scale = pow2_i32(level as u32);
    proof {
        lemma_pow2_max_level(level as nat);
        assert(scale <= 0x800_0000);
    }
    let (name, description, loot) = template_parts(i);
    Monster {
        name: String::from_str(name),
        description: String::from_str(description),
        damage_lo: 1,
        damage_hi: MONSTER_BASE_RANGE_MAX_POINT + level as i32,
        experience_given: MONSTER_BASE_EXPERIENCE_GIVEN * scale,
        total_health_points: MONSTER_BASE_HEALTH_POINT * scale,
        remaining_health_points: 5,
        level,
        loot,
    }
}

/// The placeholder monster of a fresh session: a template drawn
/// uniformly at random, at level one, shown until the first encounter
/// starts.
pub fn get_initial_monster() -> (m: Monster)
    ensures
        exists|i: int| 0 <= i < TEMPLATE_COUNT && is_initial_monster(m, i),
        m.wf(),
{
    let random_index = rand_i32_inclusive(0, (TEMPLATE_COUNT - 1) as i32) as usize;
    let (name, description, loot) = template_parts(random_index);
    proof {
        assert(pow2(1) == 2) by {
            reveal_with_fuel(pow2, 2);
        }
    }
    let m = Monster {
        name: String::from_str(name),
        description: String::from_str(description),
        damage_lo: 1,
        damage_hi: MONSTER_BASE_RANGE_MAX_POINT * 2,
        experience_given: MONSTER_BASE_EXPERIENCE_GIVEN * 2,
        total_health_points: MONSTER_BASE_HEALTH_POINT * 2,
        remaining_health_points: 5,
        level: 1,
        loot,
    };
    proof {
        assert(is_initial_monster(m, random_index as int));
    }
    m
}

/// The adversary of the next encounter: a template drawn uniformly at
/// random, scaled to the player's current level. The session itself is
/// left untouched.
pub fn get_random_monster(state: &mut GameState) -> (m: Monster)
    requires
        1 <= old(state).player.level <= MAX_LEVEL,
    ensures
        *final(state) == *old(state),
        exists|i: int|
            0 <= i < TEMPLATE_COUNT && #[trigger] is_template_monster(
                m,
                i,
                old(state).player.level as int,
            ),
        m.wf(),
{
    let template = rand_i32_inclusive(0, (TEMPLATE_COUNT - 1) as i32) as usize;
    monster_from_template(template, state.player.level)
}

} // verus!

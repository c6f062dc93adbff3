//! The fixed numeric rules of the game: base statistics, the scaling
//! formulas' inputs, and the event log's visible window.

use vstd::prelude::*;

verus! {

/// Health a monster has per doubling step of its level.
pub const MONSTER_BASE_HEALTH_POINT: i32 = 4;

/// Experience a monster grants per doubling step of its level.
pub const MONSTER_BASE_EXPERIENCE_GIVEN: i32 = 10;

/// Upper bound of a monster's damage range before level scaling.
pub const MONSTER_BASE_RANGE_MAX_POINT: i32 = 3;

/// Health the player has per doubling step of their level.
pub const PLAYER_BASE_HEALTH_POINT: i32 = 10;

/// Experience required per doubling step of the player's level.
pub const PLAYER_BASE_EXPERIENCE_NECESSARY: i32 = 10;

/// Upper bound of the player's damage range before level scaling.
pub const PLAYER_BASE_RANGE_MAX_POINT: i32 = 3;

/// How many event lines stay visible before appending advances the scroll.
pub const EVENT_WINDOW: usize = 30;

/// Characters of an event line revealed per second since its creation.
pub const REVEAL_CHARS_PER_SECOND: u64 = 15;

/// Highest player level at which the exponential health and experience
/// formulas still fit in an `i32`.
pub const MAX_LEVEL: usize = 27;

/// 2 to the power `e`, the base of the health and experience formulas.
pub open spec fn pow2(e: nat) -> nat
    decreases e,
{
    if e == 0 {
        1
    } else {
        2 * pow2((e - 1) as nat)
    }
}

/// `pow2` grows monotonically with the exponent.
pub proof fn lemma_pow2_monotone(a: nat, b: nat)
    requires
        a <= b,
    ensures
        pow2(a) <= pow2(b),
    decreases b,
{
    if a < b {
        lemma_pow2_monotone(a, (b - 1) as nat);
    }
}

/// Computes 2 to the power `e` without overflow for the exponents the
/// level formulas can produce.
pub fn pow2_i32(e: u32) -> (r: i32)
    requires
        e <= 30,
    ensures
        r == pow2(e as nat),
        r >= 1,
{
    let mut r: i32 = 1;
    let mut i: u32 = 0;
    while i < e
        invariant
            i <= e,
            e <= 30,
            r == pow2(i as nat),
            1 <= r,
        decreases e - i,
    {
        proof {
            lemma_pow2_monotone(i as nat + 1, e as nat);
            lemma_pow2_le_i32_max(e as nat);
        }
        r = 2 * r;
        i = i + 1;
    }
    r
}

/// The value of the largest power of two the level formulas can reach.
pub proof fn lemma_pow2_max_level(e: nat)
    requires
        e <= MAX_LEVEL,
    ensures
        pow2(e) <= 0x800_0000,
{
    lemma_pow2_monotone(e, MAX_LEVEL as nat);
    assert(pow2(MAX_LEVEL as nat) == 0x800_0000) by {
        reveal_with_fuel(pow2, 28);
    }
}

/// For exponents up to 30 the power of two fits in an `i32`.
pub proof fn lemma_pow2_le_i32_max(e: nat)
    requires
        e <= 30,
    ensures
        pow2(e) <= 0x4000_0000,
{
    lemma_pow2_monotone(e, 30);
    assert(pow2(30) == 0x4000_0000) by {
        reveal_with_fuel(pow2, 32);
    }
}

} // verus!

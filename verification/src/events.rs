//! The event log's entries: immutable narrative records carrying an
//! optional roll value, an optional adversary-turn flag, and the wall-clock
//! time of their creation, which drives the typewriter reveal.

use vstd::prelude::*;
use vstd::string::StrSliceExecFns;

use crate::consts::REVEAL_CHARS_PER_SECOND;

verus! {

/// One narrative line of the event log. The fields are fixed at
/// construction and never updated afterwards.
#[derive(Clone)]
pub struct GameEvent {
    /// The attack roll shown beside the line, rendered in decimal.
    pub roll: Option<String>,
    /// The narrative text of the line.
    pub description: String,
    /// Whether the line belongs to the adversary's turn, when it belongs
    /// to either side.
    pub bool_enemy_turn: Option<bool>,
    /// Milliseconds of wall-clock time at creation; read-only input to
    /// the reveal computation.
    pub timestamp: u64,
}

/// What an event says, apart from when it was created: the part of an
/// event that the engine's contracts pin down. The creation time comes
/// from the wall clock and is not determined by the inputs.
pub ghost struct EventData {
    pub roll: Option<Seq<char>>,
    pub description: Seq<char>,
    pub enemy_turn: Option<bool>,
}

/// The data of an event carrying no roll and no turn flag.
pub open spec fn neutral_data(description: Seq<char>) -> EventData {
    EventData { roll: None, description: description, enemy_turn: None }
}

/// The data of an attack event: a roll and the flag of the given side.
pub open spec fn attack_data(description: Seq<char>, roll: Seq<char>, enemy_turn: bool) -> EventData {
    EventData { roll: Some(roll), description: description, enemy_turn: Some(enemy_turn) }
}

/// The data of a turn-switch announcement: no roll, but a turn flag.
pub open spec fn switch_data(description: Seq<char>, enemy_turn: bool) -> EventData {
    EventData { roll: None, description: description, enemy_turn: Some(enemy_turn) }
}

impl GameEvent {
    /// The event's data: everything but its creation time.
    pub open spec fn data(self) -> EventData {
        EventData {
            roll: match self.roll {
                Some(r) => Some(r@),
                None => None,
            },
            description: self.description@,
            enemy_turn: self.bool_enemy_turn,
        }
    }

    /// An event with a bare narrative line.
    pub fn neutral(description: &str) -> (e: GameEvent)
        ensures
            e.data() == neutral_data(description@),
    {
        GameEvent {
            roll: None,
            description: description.to_owned(),
            bool_enemy_turn: None,
            timestamp: now_millis(),
        }
    }

    /// An attack event on the player's turn.
    pub fn user_attack(description: &str, roll: &str) -> (e: GameEvent)
        ensures
            e.data() == attack_data(description@, roll@, false),
    {
        GameEvent {
            roll: Some(roll.to_owned()),
            description: description.to_owned(),
            bool_enemy_turn: Some(false),
            timestamp: now_millis(),
        }
    }

    /// An attack event on the adversary's turn.
    pub fn monster_attack(description: &str, roll: &str) -> (e: GameEvent)
        ensures
            e.data() == attack_data(description@, roll@, true),
    {
        GameEvent {
            roll: Some(roll.to_owned()),
            description: description.to_owned(),
            bool_enemy_turn: Some(true),
            timestamp: now_millis(),
        }
    }

    /// A turn-switch announcement.
    pub fn switch_attack(description: &str, bool_enemy_turn: bool) -> (e: GameEvent)
        ensures
            e.data() == switch_data(description@, bool_enemy_turn),
    {
        GameEvent {
            roll: None,
            description: description.to_owned(),
            bool_enemy_turn: Some(bool_enemy_turn),
            timestamp: now_millis(),
        }
    }
}

/// Relies on `std::time::SystemTime::now`: milliseconds of wall-clock
/// time since the epoch. Nothing can be promised of a clock reading.
#[verifier::external_body]
fn now_millis() -> u64 {
    match std::time::SystemTime::now().duration_since(std::time::UNIX_EPOCH) {
        Ok(elapsed) => elapsed.as_millis() as u64,
        Err(_) => 0,
    }
}

/// How many characters of a line created at `created` are revealed at
/// `now`, at the fixed characters-per-second rate, capped at the line's
/// full length. A clock that moved backwards reveals nothing.
pub open spec fn reveal_len(created: u64, now: u64, total: nat) -> nat {
    if now <= created {
        0
    } else {
        let revealed = (now - created) * REVEAL_CHARS_PER_SECOND / 1000;
        if revealed > total {
            total
        } else {
            revealed as nat
        }
    }
}

/// The prefix of the event's text revealed at `now_ms`: a pure function
/// of the stored text, its creation time and the current time, which
/// leaves the event itself untouched.
pub fn revealed_prefix(event: &GameEvent, now_ms: u64) -> (r: String)
    ensures
        r@ == event.description@.take(
            reveal_len(event.timestamp, now_ms, event.description@.len()) as int,
        ),
{
    let total = event.description.as_str().unicode_len();
    let revealed: usize = if now_ms <= event.timestamp {
        0
    } else {
        let elapsed = now_ms - event.timestamp;
        let chars: u128 = (elapsed as u128) * (REVEAL_CHARS_PER_SECOND as u128) / 1000;
        if chars > total as u128 {
            total
        } else {
            chars as usize
        }
    };
    let prefix = event.description.as_str().substring_char(0, revealed);
    proof {
        assert(prefix@ =~= event.description@.take(
            reveal_len(event.timestamp, now_ms, event.description@.len()) as int,
        ));
    }
    prefix.to_owned()
}

} // verus!

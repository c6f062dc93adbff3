//! Session engine for a turn-based monster-slaying game.
//!
//! The library owns all mutable game state: the player and the current
//! monster, the combat resolution algorithm (initiative, attack rolls,
//! damage, death and loot resolution), experience and leveling, the
//! consumable inventory, the time-revealing event log, and the
//! navigation state machine that tracks which control context is active.
//! A presentation layer renders the state it exposes; an input layer
//! drives it through a handful of mutating entry points.

pub mod consts;
pub mod events;
pub mod fight;
pub mod game_state;
pub mod items;
pub mod monster;
pub mod player;
mod random;
pub mod text;
pub mod view;

//! Battle resolution engine for a turn-based, tile-matching combat game.
//!
//! Players flip paired tiles on a shared board, gather buffs, skills and
//! resources from the tiles they uncover, and use skills to damage, heal,
//! move or transform characters until one side remains.  This crate holds
//! the battle rules themselves: the turn/round state machine, the
//! buff/skill trigger pipeline, targeting and area-of-effect resolution,
//! and the damage/death/summon cascade.  Network transport, persistence and
//! the robot decision layer live outside and talk to the engine through
//! plain values.

use vstd::prelude::*;

pub mod battle_enum;
pub mod parse;
pub mod templates;
pub mod proto;
pub mod battle_buff;
pub mod battle_skill;
pub mod map_data;
pub mod battle_cter;
pub mod battle_player;
pub mod team;
pub mod errors;
pub mod rng;
pub mod task_timer;
pub mod battle;
pub mod battle_helper;
pub mod scope;
pub mod battle_trigger;
pub mod damage;

verus! {

} // verus!

//! Delayed-task records the engine schedules and the re-validation that
//! decides what a fired timer may still do.
//!
//! The engine never sleeps or spawns; it queues a `Task` in the battle's
//! task box, and the surrounding process delivers the task back after the
//! delay.  Because the battle may have moved on in between, a fired task
//! carries the turn and user it was scheduled for, and the engine decides
//! from the current state whether the fire is stale.

use vstd::prelude::*;

verus! {

/// What a delayed task asks for.
#[derive(Clone, Copy, Debug, PartialEq, Eq, Structural)]
pub enum TaskCmd {
    NoneCmd,
    MatchRoomStart,
    ChoiceIndex,
    BattleTurnTime,
    MaxBattleTurnTimes,
}

impl TaskCmd {
    /// Wire value of the command.
    pub fn into_u16(self) -> (r: u16)
        ensures
            r == self.spec_into_u16(),
    {
        match self {
            TaskCmd::NoneCmd => 0,
            TaskCmd::MatchRoomStart => 1,
            TaskCmd::ChoiceIndex => 2,
            TaskCmd::BattleTurnTime => 3,
            TaskCmd::MaxBattleTurnTimes => 4,
        }
    }

    /// Wire value of the command.
    pub open spec fn spec_into_u16(self) -> u16 {
        match self {
            TaskCmd::NoneCmd => 0,
            TaskCmd::MatchRoomStart => 1,
            TaskCmd::ChoiceIndex => 2,
            TaskCmd::BattleTurnTime => 3,
            TaskCmd::MaxBattleTurnTimes => 4,
        }
    }

    /// Command for a wire value; unknown values fall back to `NoneCmd`.
    pub fn from(value: u16) -> (r: TaskCmd)
        ensures
            r.spec_into_u16() == if value <= 4 {
                value
            } else {
                0
            },
    {
        match value {
            1 => TaskCmd::MatchRoomStart,
            2 => TaskCmd::ChoiceIndex,
            3 => TaskCmd::BattleTurnTime,
            4 => TaskCmd::MaxBattleTurnTimes,
            _ => TaskCmd::NoneCmd,
        }
    }
}

/// One delayed task: what to do, after how many milliseconds, and the
/// battle, turn and user it must still match when it fires.
#[derive(Clone, Copy, Debug, PartialEq, Eq, Structural)]
pub struct Task {
    pub cmd: TaskCmd,
    pub delay: u64,
    pub turn: u32,
    pub battle_id: u32,
    pub user_id: u32,
}

impl Default for Task {
    /// A blank task that asks for nothing.
    fn default() -> (r: Self)
        ensures
            r.cmd == TaskCmd::NoneCmd,
            r.delay == 0,
            r.turn == 0,
            r.battle_id == 0,
            r.user_id == 0,
    {
        Task { cmd: TaskCmd::NoneCmd, delay: 0, turn: 0, battle_id: 0, user_id: 0 }
    }
}

/// What the engine decides when a turn timer fires.
#[derive(Clone, Copy, Debug, PartialEq, Eq, Structural)]
pub enum TurnTimeVerdict {
    /// The battle moved on, or the task names nobody: drop the fire.
    Stale,
    /// The timed-out player never flipped a cell: kick the player.
    KickPlayer,
    /// The player acted and the board is nearly exhausted: refresh the map.
    RefreshMap,
    /// The player acted: skip the rest of the turn for them.
    SkipTurn,
}

} // verus!

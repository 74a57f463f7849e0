//! One participant of a battle: turn-scoped flow flags, gold, league and
//! grade data, and links to the characters the player owns.

use vstd::prelude::*;

use crate::battle_enum::AttackState;
use crate::battle_enum::BattlePlayerState;

verus! {

/// Largest gold total the engine stores; additions saturate at the ends.
pub const GOLD_CAP: i32 = 1000000000;

/// Clamping of a mathematical gold total into the stored range.
pub open spec fn clamp_gold(v: int) -> int {
    if v < 0 {
        0
    } else if v > GOLD_CAP as int {
        GOLD_CAP as int
    } else {
        v
    }
}

/// Per-turn and per-round bookkeeping of one player.
#[derive(Clone, Debug)]
pub struct FlowData {
    /// Movement points left this turn.
    pub residue_movement_points: u8,
    /// Cells flipped open this turn, oldest first.
    pub open_map_cell_vec: Vec<usize>,
    /// Every cell flipped open this turn, pairing included.
    pub open_map_cell_vec_history: Vec<usize>,
    /// Skills already used this turn that a turn limit binds.
    pub turn_limit_skills: Vec<u32>,
    /// Skills already used this round that a round limit binds.
    pub round_limit_skills: Vec<u32>,
    /// Skills a pairing this turn made usable.
    pub pair_usable_skills: Vec<u32>,
}

impl FlowData {
    /// Fresh, empty flow data.
    pub fn new_empty() -> (r: FlowData)
        ensures
            r.residue_movement_points == 0,
            r.open_map_cell_vec@.len() == 0,
            r.open_map_cell_vec_history@.len() == 0,
            r.turn_limit_skills@.len() == 0,
            r.round_limit_skills@.len() == 0,
            r.pair_usable_skills@.len() == 0,
    {
        FlowData {
            residue_movement_points: 0,
            open_map_cell_vec: Vec::new(),
            open_map_cell_vec_history: Vec::new(),
            turn_limit_skills: Vec::new(),
            round_limit_skills: Vec::new(),
            pair_usable_skills: Vec::new(),
        }
    }
}

/// Turn-scoped status flags of one player.
#[derive(Clone, Copy, Debug, PartialEq, Eq, Structural)]
pub struct PlayerStatus {
    /// Alive or out of the battle.
    pub battle_state: BattlePlayerState,
    /// Whether the player paired cells this turn.
    pub is_pair: bool,
    /// Whether the player was attacked this turn.
    pub is_attacked: bool,
    /// Whether the player may still attack this turn.
    pub attack_state: AttackState,
    /// Skill id that locks the player into an operation, zero when free.
    pub locked_oper: u32,
    /// Whether the player may end the turn.
    pub is_can_end_turn: bool,
}

/// League standing of a player; the score never drops below zero.
#[derive(Clone, Copy, Debug, PartialEq, Eq, Structural)]
pub struct League {
    pub league_id: i32,
    pub score: i32,
}

impl League {
    /// The player's league tier.
    pub fn get_league_id(&self) -> (r: i32)
        ensures
            r == self.league_id,
    {
        self.league_id
    }

    /// Adds `v` to the score, clamped at zero and the stored bound, and
    /// returns the new score.
    pub fn update_score(&mut self, v: i32) -> (r: i32)
        requires
            0 <= old(self).score <= GOLD_CAP as int,
        ensures
            final(self).score == clamp_gold(old(self).score + v),
            r == final(self).score,
            final(self).league_id == old(self).league_id,
    {
        let next: i64 = self.score as i64 + v as i64;
        if next < 0 {
            self.score = 0;
        } else if next > GOLD_CAP as i64 {
            self.score = GOLD_CAP;
        } else {
            self.score = next as i32;
        }
        self.score
    }
}

/// One line of the end-of-battle summary.
#[derive(Clone, Debug)]
pub struct SummaryUser {
    pub user_id: u32,
    pub name: String,
    pub cter_temp_id: u32,
    pub league: League,
    pub grade: i32,
    pub summary_rank: u8,
    pub reward_score: i32,
}

/// One participant of the battle.
#[derive(Clone, Debug)]
pub struct BattlePlayer {
    /// The player's user id; never zero for a real player.
    pub user_id: u32,
    /// Display name.
    pub name: String,
    /// Team the player fights for.
    pub team_id: u8,
    /// Current grade tier.
    pub grade: i32,
    /// Gold held; never negative.
    pub gold: i32,
    /// Id of the player's major character.
    pub major_cter: u32,
    /// Id of the character currently acting for the player.
    pub current_cter: u32,
    /// Ids of all characters the player owns, the major one included.
    pub cters: Vec<u32>,
    /// League standing.
    pub league: League,
    /// Per-turn bookkeeping.
    pub flow_data: FlowData,
    /// Turn-scoped status flags.
    pub status: PlayerStatus,
    /// True for computer-controlled players.
    pub robot: bool,
    /// True in world-boss encounters.
    pub is_world_boss: bool,
    /// The mission hooks fired for this player, in order: what happened,
    /// its value, and the element of the cell involved.
    pub mission_log: Vec<(crate::battle_enum::MissionTriggerType, u16, u8)>,
}

/// Well-formedness of a player: ids are set, totals stay in range, and
/// the major character is among the owned ones.
#[verifier::opaque]
pub open spec fn player_wf(p: BattlePlayer) -> bool {
    &&& p.user_id != 0
    &&& 0 <= p.gold <= GOLD_CAP as int
    &&& 0 <= p.league.score <= GOLD_CAP as int
    &&& p.major_cter != 0
    &&& p.cters@.contains(p.major_cter)
}

impl BattlePlayer {
    /// The player's user id.
    pub fn get_user_id(&self) -> (r: u32)
        ensures
            r == self.user_id,
    {
        self.user_id
    }

    /// True once the player is out of the battle.
    pub fn is_died(&self) -> (r: bool)
        ensures
            r == (self.status.battle_state == BattlePlayerState::Died),
    {
        self.status.battle_state == BattlePlayerState::Died
    }

    /// True for computer-controlled players.
    pub fn is_robot(&self) -> (r: bool)
        ensures
            r == self.robot,
    {
        self.robot
    }

    /// Adds `v` gold (negative to spend), clamped at zero and the bound.
    pub fn add_gold(&mut self, v: i32)
        requires
            0 <= old(self).gold <= GOLD_CAP as int,
        ensures
            final(self).gold == clamp_gold(old(self).gold + v),
            spec_same_player_but_gold(*old(self), *final(self)),
    {
        let next: i64 = self.gold as i64 + v as i64;
        if next < 0 {
            self.gold = 0;
        } else if next > GOLD_CAP as i64 {
            self.gold = GOLD_CAP;
        } else {
            self.gold = next as i32;
        }
    }

    /// Records a flipped cell in this turn's history.
    pub fn add_open_map_cell(&mut self, index: usize)
        ensures
            final(self).flow_data.open_map_cell_vec_history@ == old(
                self,
            ).flow_data.open_map_cell_vec_history@.push(index),
            final(self).flow_data.open_map_cell_vec@ == old(self).flow_data.open_map_cell_vec@,
            final(self).flow_data.residue_movement_points == old(
                self,
            ).flow_data.residue_movement_points,
            final(self).flow_data.turn_limit_skills@ == old(self).flow_data.turn_limit_skills@,
            final(self).flow_data.round_limit_skills@ == old(self).flow_data.round_limit_skills@,
            final(self).flow_data.pair_usable_skills@ == old(self).flow_data.pair_usable_skills@,
            spec_same_player_but_flow(*old(self), *final(self)),
    {
        self.flow_data.open_map_cell_vec_history.push(index);
    }

    /// The player's attack permission this turn.
    pub fn get_attack_state(&self) -> (r: AttackState)
        ensures
            r == self.status.attack_state,
    {
        self.status.attack_state
    }

    /// Lets the player attack this turn.
    pub fn change_attack_able(&mut self)
        ensures
            final(self).status.attack_state == AttackState::Able,
            spec_same_player_but_status(*old(self), *final(self)),
            final(self).status.battle_state == old(self).status.battle_state,
            final(self).status.is_pair == old(self).status.is_pair,
            final(self).status.is_attacked == old(self).status.is_attacked,
            final(self).status.locked_oper == old(self).status.locked_oper,
            final(self).status.is_can_end_turn == old(self).status.is_can_end_turn,
    {
        self.status.attack_state = AttackState::Able;
    }

    /// Spends the rest of this turn's movement points.
    pub fn clear_residue_movement_points(&mut self)
        ensures
            final(self).flow_data.residue_movement_points == 0,
            final(self).flow_data.open_map_cell_vec@ == old(self).flow_data.open_map_cell_vec@,
            final(self).flow_data.open_map_cell_vec_history@ == old(
                self,
            ).flow_data.open_map_cell_vec_history@,
            final(self).flow_data.turn_limit_skills@ == old(self).flow_data.turn_limit_skills@,
            final(self).flow_data.round_limit_skills@ == old(self).flow_data.round_limit_skills@,
            final(self).flow_data.pair_usable_skills@ == old(self).flow_data.pair_usable_skills@,
            spec_same_player_but_flow(*old(self), *final(self)),
    {
        self.flow_data.residue_movement_points = 0;
    }

    /// Resets what a new turn of this player starts from: pairing and
    /// attack flags cleared, flipped-cell lists empty, turn-limited skill
    /// uses forgotten.
    pub fn turn_start_reset(&mut self)
        ensures
            final(self).status.is_pair == false,
            final(self).status.is_attacked == false,
            final(self).status.attack_state == AttackState::NoneState,
            final(self).status.locked_oper == 0,
            final(self).status.is_can_end_turn == true,
            final(self).status.battle_state == old(self).status.battle_state,
            final(self).flow_data.open_map_cell_vec@.len() == 0,
            final(self).flow_data.open_map_cell_vec_history@.len() == 0,
            final(self).flow_data.turn_limit_skills@.len() == 0,
            final(self).flow_data.pair_usable_skills@.len() == 0,
            final(self).flow_data.round_limit_skills@ == old(self).flow_data.round_limit_skills@,
            final(self).flow_data.residue_movement_points == old(
                self,
            ).flow_data.residue_movement_points,
            spec_same_player_but_flow_status(*old(self), *final(self)),
    {
        self.status.is_pair = false;
        self.status.is_attacked = false;
        self.status.attack_state = AttackState::NoneState;
        self.status.locked_oper = 0;
        self.status.is_can_end_turn = true;
        self.flow_data.open_map_cell_vec = Vec::new();
        self.flow_data.open_map_cell_vec_history = Vec::new();
        self.flow_data.turn_limit_skills = Vec::new();
        self.flow_data.pair_usable_skills = Vec::new();
    }

    /// Resets what ends with this player's turn: the flipped-cell list of
    /// the turn is cleared.
    pub fn turn_end_reset(&mut self)
        ensures
            final(self).flow_data.open_map_cell_vec@.len() == 0,
            final(self).flow_data.open_map_cell_vec_history@.len() == 0,
            final(self).flow_data.turn_limit_skills@ == old(self).flow_data.turn_limit_skills@,
            final(self).flow_data.round_limit_skills@ == old(self).flow_data.round_limit_skills@,
            final(self).flow_data.pair_usable_skills@ == old(self).flow_data.pair_usable_skills@,
            final(self).flow_data.residue_movement_points == old(
                self,
            ).flow_data.residue_movement_points,
            spec_same_player_but_flow(*old(self), *final(self)),
    {
        self.flow_data.open_map_cell_vec = Vec::new();
        self.flow_data.open_map_cell_vec_history = Vec::new();
    }

    /// Takes the player out of the battle.
    pub fn player_die(&mut self)
        ensures
            final(self).status.battle_state == BattlePlayerState::Died,
            final(self).status.is_pair == old(self).status.is_pair,
            final(self).status.is_attacked == old(self).status.is_attacked,
            final(self).status.attack_state == old(self).status.attack_state,
            final(self).status.locked_oper == old(self).status.locked_oper,
            final(self).status.is_can_end_turn == old(self).status.is_can_end_turn,
            spec_same_player_but_status(*old(self), *final(self)),
    {
        self.status.battle_state = BattlePlayerState::Died;
    }

    /// True while `skill_id` is in this turn's pair-usable whitelist.
    pub fn has_pair_usable_skill(&self, skill_id: u32) -> (r: bool)
        ensures
            r == self.flow_data.pair_usable_skills@.contains(skill_id),
    {
        contains_u32(&self.flow_data.pair_usable_skills, skill_id)
    }
}

/// True while the list holds the value.
pub fn contains_u32(v: &Vec<u32>, value: u32) -> (r: bool)
    ensures
        r == v@.contains(value),
{
    let mut i: usize = 0;
    while i < v.len()
        invariant
            0 <= i <= v@.len(),
            forall|j: int| 0 <= j < i ==> v@[j] != value,
        decreases v@.len() - i,
    {
        if v[i] == value {
            proof {
                assert(v@[i as int] == value);
            }
            return true;
        }
        i = i + 1;
    }
    false
}

/// True while the list holds the value.
pub fn contains_usize(v: &Vec<usize>, value: usize) -> (r: bool)
    ensures
        r == v@.contains(value),
{
    let mut i: usize = 0;
    while i < v.len()
        invariant
            0 <= i <= v@.len(),
            forall|j: int| 0 <= j < i ==> v@[j] != value,
        decreases v@.len() - i,
    {
        if v[i] == value {
            proof {
                assert(v@[i as int] == value);
            }
            return true;
        }
        i = i + 1;
    }
    false
}

/// Drops every occurrence of the value from a list of distinct ids,
/// keeping the order of the rest.
pub fn remove_u32(v: &mut Vec<u32>, value: u32)
    requires
        forall|a: int, b: int| 0 <= a < b < old(v)@.len() ==> old(v)@[a] != old(v)@[b],
    ensures
        !final(v)@.contains(value),
        forall|k: int| 0 <= k < final(v)@.len() ==> old(v)@.contains(#[trigger] final(v)@[k]),
        forall|w: u32| w != value && old(v)@.contains(w) ==> final(v)@.contains(w),
        forall|a: int, b: int| 0 <= a < b < final(v)@.len() ==> final(v)@[a] != final(v)@[b],
{
    let mut r: Vec<u32> = Vec::new();
    let mut i: usize = 0;
    while i < v.len()
        invariant
            0 <= i <= v@.len(),
            forall|a: int, b: int| 0 <= a < b < v@.len() ==> v@[a] != v@[b],
            forall|k: int|
                0 <= k < r@.len() ==> v@.subrange(0, i as int).contains(#[trigger] r@[k])
                    && r@[k] != value,
            forall|j: int|
                0 <= j < i && v@[j] != value ==> r@.contains(#[trigger] v@[j]),
            forall|a: int, b: int| 0 <= a < b < r@.len() ==> r@[a] != r@[b],
        decreases v@.len() - i,
    {
        let ghost pre = r@;
        let x = v[i];
        if x != value {
            proof {
                assert(!pre.contains(x)) by {
                    if pre.contains(x) {
                        let k = choose|k: int| 0 <= k < pre.len() && pre[k] == x;
                        assert(v@.subrange(0, i as int).contains(x));
                        let j = choose|j: int|
                            0 <= j < i && v@.subrange(0, i as int)[j] == x;
                        assert(v@[j] == x && v@[i as int] == x);
                    }
                }
            }
            r.push(x);
            proof {
                assert(forall|k: int| 0 <= k < pre.len() ==> r@[k] == #[trigger] pre[k]);
                assert(r@[r@.len() - 1] == x);
                assert(v@.subrange(0, i as int + 1).contains(x)) by {
                    assert(v@.subrange(0, i as int + 1)[i as int] == x);
                }
            }
        }
        proof {
            assert(forall|k: int|
                0 <= k < r@.len() ==> v@.subrange(0, i as int + 1).contains(#[trigger] r@[k])
                    && r@[k] != value) by {
                assert forall|w: u32| v@.subrange(0, i as int).contains(w) implies v@.subrange(
                    0,
                    i as int + 1,
                ).contains(w) by {
                    let j = choose|j: int|
                        0 <= j < i && v@.subrange(0, i as int)[j] == w;
                    assert(v@.subrange(0, i as int + 1)[j] == w);
                }
            }
        }
        i = i + 1;
    }
    proof {
        assert(v@.subrange(0, v@.len() as int) =~= v@);
        assert forall|k: int| 0 <= k < r@.len() implies v@.contains(#[trigger] r@[k]) by {
            let j = choose|j: int|
                0 <= j < v@.len() && v@.subrange(0, v@.len() as int)[j] == r@[k];
            assert(v@[j] == r@[k]);
        }
    }
    *v = r;
}

/// Appends the value when the list does not hold it yet.
pub fn insert_u32(v: &mut Vec<u32>, value: u32)
    ensures
        final(v)@.contains(value),
        forall|w: u32| old(v)@.contains(w) ==> final(v)@.contains(w),
        forall|k: int| 0 <= k < final(v)@.len() ==> old(v)@.contains(#[trigger] final(v)@[k])
            || final(v)@[k] == value,
{
    if !contains_u32(v, value) {
        let ghost pre = v@;
        v.push(value);
        proof {
            assert(forall|k: int| 0 <= k < pre.len() ==> v@[k] == #[trigger] pre[k]);
            assert(v@[v@.len() - 1] == value);
        }
    }
}

/// All of `b` equals `a` except its gold.
pub open spec fn spec_same_player_but_gold(a: BattlePlayer, b: BattlePlayer) -> bool {
    &&& b.user_id == a.user_id
    &&& b.name == a.name
    &&& b.team_id == a.team_id
    &&& b.grade == a.grade
    &&& b.major_cter == a.major_cter
    &&& b.current_cter == a.current_cter
    &&& b.cters == a.cters
    &&& b.league == a.league
    &&& b.flow_data == a.flow_data
    &&& b.status == a.status
    &&& b.robot == a.robot
    &&& b.is_world_boss == a.is_world_boss
    &&& b.mission_log == a.mission_log
}

/// All of `b` equals `a` except its flow data.
pub open spec fn spec_same_player_but_flow(a: BattlePlayer, b: BattlePlayer) -> bool {
    &&& b.user_id == a.user_id
    &&& b.name == a.name
    &&& b.team_id == a.team_id
    &&& b.grade == a.grade
    &&& b.gold == a.gold
    &&& b.major_cter == a.major_cter
    &&& b.current_cter == a.current_cter
    &&& b.cters == a.cters
    &&& b.league == a.league
    &&& b.status == a.status
    &&& b.robot == a.robot
    &&& b.is_world_boss == a.is_world_boss
    &&& b.mission_log == a.mission_log
}

/// All of `b` equals `a` except its status flags.
pub open spec fn spec_same_player_but_status(a: BattlePlayer, b: BattlePlayer) -> bool {
    &&& b.user_id == a.user_id
    &&& b.name == a.name
    &&& b.team_id == a.team_id
    &&& b.grade == a.grade
    &&& b.gold == a.gold
    &&& b.major_cter == a.major_cter
    &&& b.current_cter == a.current_cter
    &&& b.cters == a.cters
    &&& b.league == a.league
    &&& b.flow_data == a.flow_data
    &&& b.robot == a.robot
    &&& b.is_world_boss == a.is_world_boss
    &&& b.mission_log == a.mission_log
}

/// All of `b` equals `a` except its flow data and status flags.
pub open spec fn spec_same_player_but_flow_status(a: BattlePlayer, b: BattlePlayer) -> bool {
    &&& b.user_id == a.user_id
    &&& b.name == a.name
    &&& b.team_id == a.team_id
    &&& b.grade == a.grade
    &&& b.gold == a.gold
    &&& b.major_cter == a.major_cter
    &&& b.current_cter == a.current_cter
    &&& b.cters == a.cters
    &&& b.league == a.league
    &&& b.robot == a.robot
    &&& b.is_world_boss == a.is_world_boss
    &&& b.mission_log == a.mission_log
}

} // verus!

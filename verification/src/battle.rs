//! The battle aggregate: the board, every player and character, the turn
//! order, and the outboxes through which the engine reports to the world.
//!
//! Characters live in one flat arena and every cross-reference is a plain
//! id, so iterating one table while changing another never aliases.

use vstd::prelude::*;

use crate::battle_cter::cter_wf;
use crate::battle_cter::BattleCharacter;
use crate::battle_enum::BattleCterState;
use crate::battle_enum::BattlePlayerState;
use crate::battle_enum::DayNight;
use crate::battle_enum::RoomType;
use crate::battle_enum::MEMBER_MAX;
use crate::battle_player::player_wf;
use crate::battle_player::BattlePlayer;
use crate::battle_player::SummaryUser;
use crate::errors::BattleError;
use crate::map_data::tile_map_wf;
use crate::map_data::TileMap;
use crate::proto::ClientCode;
use crate::proto::NoticePayload;
use crate::proto::OutMessage;
use crate::task_timer::Task;

verus! {

/// The root through which all battle mutation happens.
pub struct BattleData {
    /// This battle's id, carried by every scheduled task.
    pub battle_id: u32,
    /// Battle mode; scoring differs between modes.
    pub room_type: RoomType,
    /// The board.
    pub tile_map: TileMap,
    /// Every participant.
    pub battle_player: Vec<BattlePlayer>,
    /// Every character of the battle, minions included, in one arena.
    pub cters: Vec<BattleCharacter>,
    /// Turn-order slots holding user ids; zero marks an empty slot.
    pub turn_orders: Vec<u32>,
    /// Whose slot acts now.
    pub next_turn_index: usize,
    /// Turns taken since the battle started; never decreases.
    pub turn: u32,
    /// Round counter; never decreases.
    pub round: u32,
    /// How often the turn wrapped back to the first-order player.
    pub cycle_count: u32,
    /// Total turn changes, forced skips included.
    pub total_turn_times: u32,
    /// Day/night phase.
    pub day_night: DayNight,
    /// Seconds a player may take per turn; zero means no limit.
    pub turn_limit_time: u64,
    /// Next character id to hand out.
    pub next_cter_id: u32,
    /// Summary lines of players that died since the last settlement.
    pub summary_vec_temp: Vec<SummaryUser>,
    /// Settled summary lines.
    pub summary_vec: Vec<SummaryUser>,
    /// League tier of every participant, alive or gone, by user id.
    pub leave_map: Vec<(u32, i32)>,
    /// Messages waiting for the transport layer.
    pub outbox: Vec<OutMessage>,
    /// Delayed tasks waiting for the scheduler.
    pub task_box: Vec<Task>,
}

/// Well-formedness of the aggregate: the turn order has its fixed size
/// and the index stays on it, players and characters are well-formed with
/// distinct ids, and the board invariant holds.
pub open spec fn battle_wf(b: BattleData) -> bool {
    &&& b.turn_orders@.len() == MEMBER_MAX
    &&& b.next_turn_index < MEMBER_MAX
    &&& tile_map_wf(b.tile_map)
    &&& forall|i: int|
        0 <= i < b.battle_player@.len() ==> player_wf(#[trigger] b.battle_player@[i])
    &&& forall|k: int, l: int|
        0 <= k < l < b.battle_player@.len() ==> (#[trigger] b.battle_player@[k]).user_id != (
        #[trigger] b.battle_player@[l]).user_id
    &&& forall|i: int| 0 <= i < b.cters@.len() ==> cter_wf(#[trigger] b.cters@[i])
    &&& forall|k: int, l: int|
        0 <= k < l < b.cters@.len() ==> (#[trigger] b.cters@[k]).base_attr.cter_id != (
        #[trigger] b.cters@[l]).base_attr.cter_id
}

/// Position of the first player in the list with the user id, if any.
pub open spec fn spec_first_player_idx(s: Seq<BattlePlayer>, user_id: u32) -> Option<int>
    decreases s.len(),
{
    if s.len() == 0 {
        None
    } else if s[0].user_id == user_id {
        Some(0)
    } else {
        match spec_first_player_idx(s.drop_first(), user_id) {
            Some(k) => Some(k + 1),
            None => None,
        }
    }
}

/// Position of the first player with the user id, if any.
pub open spec fn spec_player_idx(b: BattleData, user_id: u32) -> Option<int> {
    spec_first_player_idx(b.battle_player@, user_id)
}

/// Position of the first character in the list with the id, if any.
pub open spec fn spec_first_cter_idx(s: Seq<BattleCharacter>, cter_id: u32) -> Option<int>
    decreases s.len(),
{
    if s.len() == 0 {
        None
    } else if s[0].base_attr.cter_id == cter_id {
        Some(0)
    } else {
        match spec_first_cter_idx(s.drop_first(), cter_id) {
            Some(k) => Some(k + 1),
            None => None,
        }
    }
}

/// Position of the first character with the id, if any.
pub open spec fn spec_cter_idx(b: BattleData, cter_id: u32) -> Option<int> {
    spec_first_cter_idx(b.cters@, cter_id)
}

impl BattleData {
    /// Position of the player with this user id in the player table.
    pub fn find_player_idx(&self, user_id: u32) -> (r: Option<usize>)
        ensures
            match r {
                Some(i) => i < self.battle_player@.len() && self.battle_player@[i as int].user_id
                    == user_id && (forall|j: int|
                    0 <= j < i ==> (#[trigger] self.battle_player@[j]).user_id != user_id)
                    && spec_player_idx(*self, user_id) == Some(i as int),
                None => (forall|i: int|
                    0 <= i < self.battle_player@.len() ==> (
                    #[trigger] self.battle_player@[i]).user_id != user_id) && spec_player_idx(
                    *self,
                    user_id,
                ) is None,
            },
    {
        let mut i: usize = 0;
        while i < self.battle_player.len()
            invariant
                0 <= i <= self.battle_player@.len(),
                forall|j: int|
                    0 <= j < i ==> (#[trigger] self.battle_player@[j]).user_id != user_id,
            decreases self.battle_player@.len() - i,
        {
            if self.battle_player[i].user_id == user_id {
                proof {
                    lemma_first_player_idx(self.battle_player@, user_id, i as int);
                }
                return Some(i);
            }
            i = i + 1;
        }
        proof {
            lemma_first_player_idx_none(self.battle_player@, user_id);
        }
        None
    }

    /// Position of the character with this id in the arena.
    pub fn find_cter_idx(&self, cter_id: u32) -> (r: Option<usize>)
        ensures
            match r {
                Some(i) => i < self.cters@.len() && self.cters@[i as int].base_attr.cter_id
                    == cter_id && (forall|j: int|
                    0 <= j < i ==> (#[trigger] self.cters@[j]).base_attr.cter_id != cter_id)
                    && spec_cter_idx(*self, cter_id) == Some(i as int),
                None => (forall|i: int|
                    0 <= i < self.cters@.len() ==> (#[trigger] self.cters@[i]).base_attr.cter_id
                        != cter_id) && spec_cter_idx(*self, cter_id) is None,
            },
    {
        let mut i: usize = 0;
        while i < self.cters.len()
            invariant
                0 <= i <= self.cters@.len(),
                forall|j: int|
                    0 <= j < i ==> (#[trigger] self.cters@[j]).base_attr.cter_id != cter_id,
            decreases self.cters@.len() - i,
        {
            if self.cters[i].base_attr.cter_id == cter_id {
                proof {
                    lemma_first_cter_idx(self.cters@, cter_id, i as int);
                }
                return Some(i);
            }
            i = i + 1;
        }
        proof {
            lemma_first_cter_idx_none(self.cters@, cter_id);
        }
        None
    }

    /// The user acting on the given turn-order slot, or on the current one
    /// when no slot is named.  Fails only off the turn order.
    pub fn get_turn_user(&self, index: Option<usize>) -> (r: Result<u32, BattleError>)
        ensures
            match r {
                Ok(user_id) => {
                    let i = (match index {
                        Some(i) => i,
                        None => self.next_turn_index,
                    });
                    i < self.turn_orders@.len() && user_id == self.turn_orders@[i as int]
                },
                Err(e) => e == BattleError::NotFound && (match index {
                    Some(i) => i,
                    None => self.next_turn_index,
                }) >= self.turn_orders@.len(),
            },
    {
        let i = match index {
            Some(i) => i,
            None => self.next_turn_index,
        };
        if i < self.turn_orders.len() {
            Ok(self.turn_orders[i])
        } else {
            Err(BattleError::NotFound)
        }
    }

    /// The user id of the first turn-order slot.
    pub fn get_frist_order_user_id(&self) -> (r: u32)
        requires
            self.turn_orders@.len() > 0,
        ensures
            r == self.turn_orders@[0],
    {
        self.turn_orders[0]
    }

    /// The player that owns this character, by the arena's records.
    pub fn get_user_id(&self, cter_id: u32) -> (r: Option<u32>)
        ensures
            match r {
                Some(user_id) => exists|i: int|
                    0 <= i < self.cters@.len() && (#[trigger] self.cters@[i]).base_attr.cter_id
                        == cter_id && self.cters@[i].base_attr.user_id == user_id,
                None => forall|i: int|
                    0 <= i < self.cters@.len() ==> (#[trigger] self.cters@[i]).base_attr.cter_id
                        != cter_id,
            },
    {
        match self.find_cter_idx(cter_id) {
            Some(i) => {
                proof {
                    assert(self.cters@[i as int].base_attr.cter_id == cter_id);
                }
                Some(self.cters[i].base_attr.user_id)
            },
            None => None,
        }
    }

    /// The team this character fights for, or zero for an unknown id.
    pub fn get_team_id(&self, cter_id: u32) -> (r: u8)
        ensures
            (exists|i: int|
                0 <= i < self.cters@.len() && (#[trigger] self.cters@[i]).base_attr.cter_id
                    == cter_id && self.cters@[i].base_attr.team_id == r) || (r == 0 && forall|
                i: int,
            |
                0 <= i < self.cters@.len() ==> (#[trigger] self.cters@[i]).base_attr.cter_id
                    != cter_id),
    {
        match self.find_cter_idx(cter_id) {
            Some(i) => self.cters[i].base_attr.team_id,
            None => 0,
        }
    }

    /// The character with this id, alive when `is_alive` demands it.
    /// Fails with `NotFound` for an unknown id and with `StateViolation`
    /// for a dead character that was required alive.
    pub fn get_battle_cter(&self, cter_id: u32, is_alive: bool) -> (r: Result<
        &BattleCharacter,
        BattleError,
    >)
        ensures
            match r {
                Ok(c) => c.base_attr.cter_id == cter_id && (exists|i: int|
                    0 <= i < self.cters@.len() && self.cters@[i] == *c) && (is_alive ==> c.state
                    != BattleCterState::Die),
                Err(e) => match spec_cter_idx(*self, cter_id) {
                    Some(i) => e == BattleError::StateViolation && is_alive && self.cters@[i].state
                        == BattleCterState::Die,
                    None => e == BattleError::NotFound,
                },
            },
    {
        match self.find_cter_idx(cter_id) {
            Some(i) => {
                let c = &self.cters[i];
                if is_alive && c.state == BattleCterState::Die {
                    Err(BattleError::StateViolation)
                } else {
                    Ok(c)
                }
            },
            None => Err(BattleError::NotFound),
        }
    }

    /// The player with this user id, alive when `is_alive` demands it.
    pub fn get_battle_player(&self, user_id: Option<u32>, is_alive: bool) -> (r: Result<
        &BattlePlayer,
        BattleError,
    >)
        ensures
            match r {
                Ok(p) => (exists|i: int|
                    0 <= i < self.battle_player@.len() && self.battle_player@[i] == *p) && (
                match user_id {
                    Some(u) => p.user_id == u,
                    None => self.next_turn_index < self.turn_orders@.len() && p.user_id
                        == self.turn_orders@[self.next_turn_index as int],
                }) && (is_alive ==> p.status.battle_state != BattlePlayerState::Died),
                Err(_) => true,
            },
    {
        let uid = match user_id {
            Some(u) => u,
            None => {
                match self.get_turn_user(None) {
                    Ok(u) => u,
                    Err(e) => {
                        return Err(e);
                    },
                }
            },
        };
        match self.find_player_idx(uid) {
            Some(i) => {
                let p = &self.battle_player[i];
                if is_alive && p.status.battle_state == BattlePlayerState::Died {
                    Err(BattleError::StateViolation)
                } else {
                    Ok(p)
                }
            },
            None => Err(BattleError::NotFound),
        }
    }

    /// How many players are still in the battle.
    pub fn get_alive_player_num(&self) -> (r: usize)
        ensures
            r == spec_alive_count(self.battle_player@),
    {
        let mut count: usize = 0;
        let mut i: usize = 0;
        while i < self.battle_player.len()
            invariant
                0 <= i <= self.battle_player@.len(),
                count == spec_alive_count(self.battle_player@.subrange(0, i as int)),
                count <= i,
            decreases self.battle_player@.len() - i,
        {
            proof {
                let next = self.battle_player@.subrange(0, i as int + 1);
                assert(next.drop_last() =~= self.battle_player@.subrange(0, i as int));
            }
            if self.battle_player[i].status.battle_state == BattlePlayerState::Normal {
                count = count + 1;
            }
            i = i + 1;
        }
        proof {
            assert(self.battle_player@.subrange(0, self.battle_player@.len() as int)
                =~= self.battle_player@);
        }
        count
    }

    /// The current day/night phase.
    pub fn get_day_night(&self) -> (r: DayNight)
        ensures
            r == self.day_night,
    {
        self.day_night
    }

    /// A character id never handed out before in this battle.
    pub fn generate_cter_id(&mut self) -> (r: u32)
        requires
            old(self).next_cter_id < u32::MAX,
        ensures
            r == old(self).next_cter_id + 1,
            final(self).next_cter_id == old(self).next_cter_id + 1,
            spec_same_battle_but_next_cter_id(*old(self), *final(self)),
    {
        self.next_cter_id = self.next_cter_id + 1;
        self.next_cter_id
    }

    /// Advances the acting slot to the next living, assigned player.
    ///
    /// One slot is stepped at a time; empty slots and dead players are
    /// stepped past, each step counting one turn, for at most one full
    /// lap of the order.  While any slot names a living player the walk
    /// ends on one; an order with none left is reported as a state
    /// violation instead of looping.
    #[verifier::rlimit(100)]
    #[verifier::spinoff_prover]
    pub fn add_next_turn(&mut self) -> (r: Result<(), BattleError>)
        requires
            battle_wf(*old(self)),
            old(self).turn + MEMBER_MAX <= u32::MAX,
            old(self).total_turn_times + MEMBER_MAX <= u32::MAX,
        ensures
            battle_wf(*final(self)),
            spec_same_battle_but_turn_and_players(*old(self), *final(self)),
            final(self).battle_player@.len() == old(self).battle_player@.len(),
            // every player keeps its identity, life state, gold and
            // characters; only turn-scoped flow and flags reset
            forall|j: int|
                0 <= j < final(self).battle_player@.len()
                    ==> crate::battle_player::spec_same_player_but_flow_status(
                    old(self).battle_player@[j],
                    #[trigger] final(self).battle_player@[j],
                ) && final(self).battle_player@[j].status.battle_state == old(
                    self,
                ).battle_player@[j].status.battle_state,
            old(self).turn < final(self).turn <= old(self).turn + MEMBER_MAX,
            final(self).total_turn_times - old(self).total_turn_times == final(self).turn - old(
                self,
            ).turn,
            r is Ok <==> (exists|i: int|
                spec_slot_alive(old(self).turn_orders@, old(self).battle_player@, i)),
            r is Ok ==> spec_slot_alive(
                final(self).turn_orders@,
                final(self).battle_player@,
                final(self).next_turn_index as int,
            ),
            // every slot stepped past was empty or held a dead player
            forall|t: int|
                1 <= t < final(self).turn - old(self).turn ==> !spec_slot_alive(
                    old(self).turn_orders@,
                    old(self).battle_player@,
                    #[trigger] spec_lap_idx(
                        old(self).next_turn_index as int,
                        t,
                        MEMBER_MAX as int,
                    ),
                ),
            // the outgoing player's turn ends: its flipped-cell lists clear
            match spec_player_idx(
                *old(self),
                old(self).turn_orders@[old(self).next_turn_index as int],
            ) {
                Some(p) => final(self).battle_player@[p].flow_data.open_map_cell_vec@.len() == 0
                    && final(self).battle_player@[p].flow_data.open_map_cell_vec_history@.len()
                    == 0,
                None => true,
            },
            // the incoming player's turn begins afresh
            r is Ok ==> (match spec_player_idx(
                *old(self),
                final(self).turn_orders@[final(self).next_turn_index as int],
            ) {
                Some(p) => {
                    let np = final(self).battle_player@[p];
                    &&& np.status.is_pair == false
                    &&& np.status.is_attacked == false
                    &&& np.status.attack_state == crate::battle_enum::AttackState::NoneState
                    &&& np.flow_data.open_map_cell_vec@.len() == 0
                    &&& np.flow_data.open_map_cell_vec_history@.len() == 0
                    &&& np.flow_data.turn_limit_skills@.len() == 0
                    &&& np.flow_data.pair_usable_skills@.len() == 0
                },
                None => true,
            }),
            r matches Err(e) ==> e == BattleError::StateViolation,
    {
        let start = self.next_turn_index;
        let m = self.turn_orders.len();
        // the outgoing player's turn-end hook
        let out_user = self.turn_orders[start];
        if out_user != 0 {
            match self.find_player_idx(out_user) {
                Some(p) => {
                    let ghost pre_end = *self;
                    {
                        let pl = &mut self.battle_player[p];
                        pl.turn_end_reset();
                    }
                    proof {
                        reveal(crate::battle_player::player_wf);
                        assert(self.battle_player@ =~= pre_end.battle_player@.update(
                            p as int,
                            self.battle_player@[p as int],
                        ));
                        crate::battle_helper::lemma_wf_after_player_update(
                            pre_end,
                            *self,
                            p as int,
                        );
                    }
                },
                None => {},
            }
        }
        proof {
            if out_user == 0 {
                // a real player never carries the empty user id
                reveal(crate::battle_player::player_wf);
                lemma_first_player_idx_in_range(old(self).battle_player@, out_user);
            }
            match spec_player_idx(*old(self), out_user) {
                Some(p_out) => {
                    assert(self.battle_player@[p_out].flow_data.open_map_cell_vec@.len() == 0
                        && self.battle_player@[p_out].flow_data.open_map_cell_vec_history@.len()
                        == 0);
                },
                None => {},
            }
        }
        let ghost mid0 = *self;
        proof {
            assert(forall|j: int|
                0 <= j < self.battle_player@.len() ==> (
                #[trigger] self.battle_player@[j]).user_id == old(self).battle_player@[j].user_id
                    && self.battle_player@[j].status.battle_state == old(
                    self,
                ).battle_player@[j].status.battle_state);
        }
        let mut s: usize = 0;
        loop
            invariant_except_break
                0 <= s < m,
                forall|t: int|
                    1 <= t <= s ==> !spec_slot_alive(
                        old(self).turn_orders@,
                        old(self).battle_player@,
                        #[trigger] spec_lap_idx(start as int, t, m as int),
                    ),
            invariant
                battle_wf(*self),
                spec_same_battle_but_turn(mid0, *self),
                m == old(self).turn_orders@.len(),
                m == MEMBER_MAX,
                start == old(self).next_turn_index,
                start < m,
                0 <= s <= m,
                old(self).turn + MEMBER_MAX <= u32::MAX,
                old(self).total_turn_times + MEMBER_MAX <= u32::MAX,
                mid0.turn == old(self).turn,
                mid0.total_turn_times == old(self).total_turn_times,
                mid0.turn_orders@ == old(self).turn_orders@,
                mid0.battle_player@.len() == old(self).battle_player@.len(),
                forall|j: int|
                    0 <= j < mid0.battle_player@.len() ==> (
                    #[trigger] mid0.battle_player@[j]).user_id == old(
                        self,
                    ).battle_player@[j].user_id && mid0.battle_player@[j].status.battle_state
                        == old(self).battle_player@[j].status.battle_state,
                self.turn == old(self).turn + s,
                self.total_turn_times == old(self).total_turn_times + s,
                self.next_turn_index as int == (if start + s < m {
                    start + s
                } else {
                    start + s - m
                }),
                forall|t: int|
                    1 <= t < s ==> !spec_slot_alive(
                        old(self).turn_orders@,
                        old(self).battle_player@,
                        #[trigger] spec_lap_idx(start as int, t, m as int),
                    ),
            ensures
                battle_wf(*self),
                spec_same_battle_but_turn(mid0, *self),
                old(self).turn < self.turn <= old(self).turn + MEMBER_MAX,
                self.total_turn_times - old(self).total_turn_times == self.turn - old(self).turn,
                1 <= s <= m,
                s as int == self.turn - old(self).turn,
                self.next_turn_index < m,
                forall|t: int|
                    1 <= t < s ==> !spec_slot_alive(
                        old(self).turn_orders@,
                        old(self).battle_player@,
                        #[trigger] spec_lap_idx(start as int, t, m as int),
                    ),
                (spec_slot_alive(
                    old(self).turn_orders@,
                    old(self).battle_player@,
                    self.next_turn_index as int,
                ) || (s == m && forall|t: int|
                    1 <= t <= s ==> !spec_slot_alive(
                        old(self).turn_orders@,
                        old(self).battle_player@,
                        #[trigger] spec_lap_idx(start as int, t, m as int),
                    ))),
            decreases m - s,
        {
            // one slot forward, counting one turn
            self.next_turn_index = self.next_turn_index + 1;
            if self.next_turn_index >= m {
                self.next_turn_index = 0;
            }
            self.turn = self.turn + 1;
            self.total_turn_times = self.total_turn_times + 1;
            s = s + 1;
            let user_id = self.turn_orders[self.next_turn_index];
            if user_id != 0 {
                match self.find_player_idx(user_id) {
                    Some(p) => {
                        if self.battle_player[p].status.battle_state != BattlePlayerState::Died {
                            proof {
                                lemma_player_idx_same_ids(
                                    self.battle_player@,
                                    old(self).battle_player@,
                                    user_id,
                                );
                                assert(spec_slot_alive(
                                    old(self).turn_orders@,
                                    old(self).battle_player@,
                                    self.next_turn_index as int,
                                ));
                            }
                            break ;
                        }
                    },
                    None => {},
                }
            }
            proof {
                lemma_player_idx_same_ids(
                    self.battle_player@,
                    old(self).battle_player@,
                    user_id,
                );
                assert(!spec_slot_alive(
                    old(self).turn_orders@,
                    old(self).battle_player@,
                    self.next_turn_index as int,
                ));
            }
            if s >= m {
                proof {
                    assert(forall|t: int|
                        1 <= t <= s ==> !spec_slot_alive(
                            old(self).turn_orders@,
                            old(self).battle_player@,
                            #[trigger] spec_lap_idx(start as int, t, m as int),
                        ));
                }
                break ;
            }
        }
        let uid = self.turn_orders[self.next_turn_index];
        let alive_here = if uid != 0 {
            match self.find_player_idx(uid) {
                Some(p) => self.battle_player[p].status.battle_state != BattlePlayerState::Died,
                None => false,
            }
        } else {
            false
        };
        proof {
            lemma_player_idx_same_ids(self.battle_player@, old(self).battle_player@, uid);
            assert(alive_here == spec_slot_alive(
                old(self).turn_orders@,
                old(self).battle_player@,
                self.next_turn_index as int,
            ));
        }
        if alive_here {
            // the incoming player's turn-start hook
            match self.find_player_idx(uid) {
                Some(p) => {
                    let ghost pre_start = *self;
                    {
                        let pl = &mut self.battle_player[p];
                        pl.turn_start_reset();
                    }
                    proof {
                        reveal(crate::battle_player::player_wf);
                        assert(self.battle_player@ =~= pre_start.battle_player@.update(
                            p as int,
                            self.battle_player@[p as int],
                        ));
                        crate::battle_helper::lemma_wf_after_player_update(
                            pre_start,
                            *self,
                            p as int,
                        );
                        lemma_player_idx_same_ids(
                            self.battle_player@,
                            old(self).battle_player@,
                            uid,
                        );
                        lemma_player_idx_same_ids(
                            pre_start.battle_player@,
                            old(self).battle_player@,
                            uid,
                        );
                        assert(spec_player_idx(*old(self), uid) == Some(p as int));
                        assert(self.battle_player@[p as int].flow_data.open_map_cell_vec@.len()
                            == 0 && self.battle_player@[
                            p as int
                        ].flow_data.turn_limit_skills@.len() == 0);
                    }
                },
                None => {},
            }
            proof {
                assert(spec_slot_alive(
                    self.turn_orders@,
                    self.battle_player@,
                    self.next_turn_index as int,
                ));
                match spec_player_idx(
                    *old(self),
                    old(self).turn_orders@[old(self).next_turn_index as int],
                ) {
                    Some(p_out) => {
                        assert(mid0.battle_player@[p_out].flow_data.open_map_cell_vec@.len()
                            == 0);
                        assert(self.battle_player@[p_out].flow_data.open_map_cell_vec@.len()
                            == 0);
                    },
                    None => {},
                }
            }
            Ok(())
        } else {
            proof {
                match spec_player_idx(
                    *old(self),
                    old(self).turn_orders@[old(self).next_turn_index as int],
                ) {
                    Some(p_out) => {
                        assert(mid0.battle_player@[p_out].flow_data.open_map_cell_vec@.len()
                            == 0);
                        assert(self.battle_player@[p_out].flow_data.open_map_cell_vec@.len()
                            == 0);
                    },
                    None => {},
                }
                assert forall|i: int|
                    !spec_slot_alive(
                        old(self).turn_orders@,
                        old(self).battle_player@,
                        i,
                    ) by {
                    if 0 <= i < m {
                        let t = if i > start {
                            i - start
                        } else {
                            m - start + i
                        };
                        assert(1 <= t <= m);
                        assert(spec_lap_idx(start as int, t, m as int) == i);
                    }
                }
            }
            Err(BattleError::StateViolation)
        }
    }

    /// Queues one message for this user, unless the user is a robot, which
    /// no transport reaches.
    pub fn send_2_client(&mut self, cmd: ClientCode, user_id: u32, payload: NoticePayload)
        ensures
            spec_same_battle_but_outbox(*old(self), *final(self)),
            (match spec_player_idx(*old(self), user_id) {
                Some(i) => old(self).battle_player@[i].robot,
                None => false,
            }) ==> final(self).outbox@ == old(self).outbox@,
            !(match spec_player_idx(*old(self), user_id) {
                Some(i) => old(self).battle_player@[i].robot,
                None => false,
            }) ==> final(self).outbox@.len() == old(self).outbox@.len() + 1 && (forall|k: int|
                0 <= k < old(self).outbox@.len() ==> final(self).outbox@[k] == old(
                    self,
                ).outbox@[k]) && final(self).outbox@.last().cmd == cmd
                && final(self).outbox@.last().user_id == user_id,
    {
        let is_robot = match self.find_player_idx(user_id) {
            Some(i) => self.battle_player[i].robot,
            None => false,
        };
        if !is_robot {
            self.outbox.push(OutMessage { cmd, user_id, payload });
        }
    }

    /// Queues one message for every human player, in player-table order:
    /// robots get none, and every other player gets exactly one carrying
    /// this command.
    pub fn send_2_all_client(&mut self, cmd: ClientCode, payload: NoticePayload)
        ensures
            spec_same_battle_but_outbox(*old(self), *final(self)),
            final(self).outbox@.len() == old(self).outbox@.len() + spec_non_robot_users(
                old(self).battle_player@,
            ).len(),
            forall|k: int|
                0 <= k < old(self).outbox@.len() ==> final(self).outbox@[k] == old(
                    self,
                ).outbox@[k],
            forall|k: int|
                0 <= k < spec_non_robot_users(old(self).battle_player@).len() ==> (
                #[trigger] final(self).outbox@[old(self).outbox@.len() + k]).cmd == cmd && final(self).outbox@[old(self).outbox@.len() + k].user_id == spec_non_robot_users(
                    old(self).battle_player@,
                )[k],
    {
        let mut i: usize = 0;
        let ghost orig_outbox = self.outbox@;
        while i < self.battle_player.len()
            invariant
                0 <= i <= self.battle_player@.len(),
                self.battle_player@ == old(self).battle_player@,
                spec_same_battle_but_outbox(*old(self), *self),
                orig_outbox == old(self).outbox@,
                self.outbox@.len() == orig_outbox.len() + spec_non_robot_users(
                    self.battle_player@.subrange(0, i as int),
                ).len(),
                forall|k: int|
                    0 <= k < orig_outbox.len() ==> self.outbox@[k] == #[trigger] orig_outbox[k],
                forall|k: int|
                    0 <= k < spec_non_robot_users(
                        self.battle_player@.subrange(0, i as int),
                    ).len() ==> (#[trigger] self.outbox@[orig_outbox.len() + k]).cmd == cmd
                        && self.outbox@[orig_outbox.len() + k].user_id == spec_non_robot_users(
                        self.battle_player@.subrange(0, i as int),
                    )[k],
            decreases self.battle_player@.len() - i,
        {
            proof {
                let next = self.battle_player@.subrange(0, i as int + 1);
                assert(next.drop_last() =~= self.battle_player@.subrange(0, i as int));
            }
            if !self.battle_player[i].robot {
                let user_id = self.battle_player[i].user_id;
                let ghost pre = self.outbox@;
                self.outbox.push(OutMessage { cmd, user_id, payload: payload.clone() });
                proof {
                    assert(forall|k: int| 0 <= k < pre.len() ==> self.outbox@[k] == #[trigger] pre[k]);
                    assert(self.outbox@.last().cmd == cmd);
                }
            }
            i = i + 1;
        }
        proof {
            assert(self.battle_player@.subrange(0, self.battle_player@.len() as int)
                =~= self.battle_player@);
        }
    }
}

/// The slot a walk of the turn order reaches after `t` steps from
/// `start`, wrapping once past the end of the order.
pub open spec fn spec_lap_idx(start: int, t: int, m: int) -> int {
    if start + t < m {
        start + t
    } else {
        start + t - m
    }
}

/// The slot names a living, assigned player: it holds a real user id,
/// and that user's player is in the battle and not dead.
pub open spec fn spec_slot_alive(orders: Seq<u32>, players: Seq<BattlePlayer>, i: int) -> bool {
    &&& 0 <= i < orders.len()
    &&& orders[i] != 0
    &&& match spec_first_player_idx(players, orders[i]) {
        Some(p) => players[p].status.battle_state != BattlePlayerState::Died,
        None => false,
    }
}

/// All of `b` equals `a` except the acting slot and the turn counters.
pub open spec fn spec_same_battle_but_turn(a: BattleData, b: BattleData) -> bool {
    &&& b.battle_id == a.battle_id
    &&& b.room_type == a.room_type
    &&& b.tile_map == a.tile_map
    &&& b.battle_player == a.battle_player
    &&& b.cters == a.cters
    &&& b.turn_orders == a.turn_orders
    &&& b.round == a.round
    &&& b.cycle_count == a.cycle_count
    &&& b.day_night == a.day_night
    &&& b.turn_limit_time == a.turn_limit_time
    &&& b.next_cter_id == a.next_cter_id
    &&& b.summary_vec_temp == a.summary_vec_temp
    &&& b.summary_vec == a.summary_vec
    &&& b.leave_map == a.leave_map
    &&& b.outbox == a.outbox
    &&& b.task_box == a.task_box
}

/// All of `b` equals `a` except the players, the acting slot and the
/// turn counters.
pub open spec fn spec_same_battle_but_turn_and_players(a: BattleData, b: BattleData) -> bool {
    &&& b.battle_id == a.battle_id
    &&& b.room_type == a.room_type
    &&& b.tile_map == a.tile_map
    &&& b.cters == a.cters
    &&& b.turn_orders == a.turn_orders
    &&& b.round == a.round
    &&& b.cycle_count == a.cycle_count
    &&& b.day_night == a.day_night
    &&& b.turn_limit_time == a.turn_limit_time
    &&& b.next_cter_id == a.next_cter_id
    &&& b.summary_vec_temp == a.summary_vec_temp
    &&& b.summary_vec == a.summary_vec
    &&& b.leave_map == a.leave_map
    &&& b.outbox == a.outbox
    &&& b.task_box == a.task_box
}

/// The user ids a broadcast reaches, in player-table order: every
/// player that is not a robot, once.
pub open spec fn spec_non_robot_users(players: Seq<BattlePlayer>) -> Seq<u32>
    decreases players.len(),
{
    if players.len() == 0 {
        Seq::empty()
    } else {
        let rest = spec_non_robot_users(players.drop_last());
        if players.last().robot {
            rest
        } else {
            rest.push(players.last().user_id)
        }
    }
}

/// How many players of the list are still in the battle.
pub open spec fn spec_alive_count(players: Seq<BattlePlayer>) -> int
    decreases players.len(),
{
    if players.len() == 0 {
        0
    } else {
        spec_alive_count(players.drop_last()) + if players.last().status.battle_state
            == BattlePlayerState::Normal {
            1int
        } else {
            0int
        }
    }
}

/// The first position holding the user id determines the lookup.
pub proof fn lemma_first_player_idx(s: Seq<BattlePlayer>, user_id: u32, i: int)
    requires
        0 <= i < s.len(),
        s[i].user_id == user_id,
        forall|j: int| 0 <= j < i ==> (#[trigger] s[j]).user_id != user_id,
    ensures
        spec_first_player_idx(s, user_id) == Some(i),
    decreases i,
{
    if i > 0 {
        assert(forall|j: int|
            0 <= j < i - 1 ==> (#[trigger] s.drop_first()[j]).user_id != user_id);
        lemma_first_player_idx(s.drop_first(), user_id, i - 1);
    }
}

/// A found position lies on the list and holds the user id.
pub proof fn lemma_first_player_idx_in_range(s: Seq<BattlePlayer>, user_id: u32)
    ensures
        match spec_first_player_idx(s, user_id) {
            Some(i) => 0 <= i < s.len() && s[i].user_id == user_id,
            None => true,
        },
    decreases s.len(),
{
    if s.len() > 0 {
        lemma_first_player_idx_in_range(s.drop_first(), user_id);
    }
}

/// A list without the user id yields nothing.
pub proof fn lemma_first_player_idx_none(s: Seq<BattlePlayer>, user_id: u32)
    requires
        forall|i: int| 0 <= i < s.len() ==> (#[trigger] s[i]).user_id != user_id,
    ensures
        spec_first_player_idx(s, user_id) is None,
    decreases s.len(),
{
    if s.len() > 0 {
        lemma_first_player_idx_none(s.drop_first(), user_id);
    }
}

/// The first position holding the character id determines the lookup.
pub proof fn lemma_first_cter_idx(s: Seq<BattleCharacter>, cter_id: u32, i: int)
    requires
        0 <= i < s.len(),
        s[i].base_attr.cter_id == cter_id,
        forall|j: int| 0 <= j < i ==> (#[trigger] s[j]).base_attr.cter_id != cter_id,
    ensures
        spec_first_cter_idx(s, cter_id) == Some(i),
    decreases i,
{
    if i > 0 {
        assert(forall|j: int|
            0 <= j < i - 1 ==> (#[trigger] s.drop_first()[j]).base_attr.cter_id != cter_id);
        lemma_first_cter_idx(s.drop_first(), cter_id, i - 1);
    }
}

/// Some position holding the character id means the lookup finds an
/// equal-or-earlier one.
pub proof fn lemma_first_cter_idx_exists(s: Seq<BattleCharacter>, cter_id: u32, j: int)
    requires
        0 <= j < s.len(),
        s[j].base_attr.cter_id == cter_id,
    ensures
        spec_first_cter_idx(s, cter_id) matches Some(i) && 0 <= i <= j && s[i].base_attr.cter_id
            == cter_id,
    decreases j,
{
    if s[0].base_attr.cter_id != cter_id {
        lemma_first_cter_idx_exists(s.drop_first(), cter_id, j - 1);
    }
}

/// With distinct character ids, any position holding the id is the one
/// the lookup names.
pub proof fn lemma_cter_idx_unique(s: Seq<BattleCharacter>, cter_id: u32, j: int)
    requires
        0 <= j < s.len(),
        s[j].base_attr.cter_id == cter_id,
        forall|k: int, l: int|
            0 <= k < l < s.len() ==> (#[trigger] s[k]).base_attr.cter_id != (
            #[trigger] s[l]).base_attr.cter_id,
    ensures
        spec_first_cter_idx(s, cter_id) == Some(j),
{
    lemma_first_cter_idx_exists(s, cter_id, j);
    let i = spec_first_cter_idx(s, cter_id).unwrap();
    if i < j {
        assert(s[i].base_attr.cter_id != s[j].base_attr.cter_id);
    }
}

/// Lists whose players carry the same user ids agree on every lookup.
pub proof fn lemma_player_idx_same_ids(s1: Seq<BattlePlayer>, s2: Seq<BattlePlayer>, user_id: u32)
    requires
        s1.len() == s2.len(),
        forall|i: int| 0 <= i < s1.len() ==> (#[trigger] s1[i]).user_id == s2[i].user_id,
    ensures
        spec_first_player_idx(s1, user_id) == spec_first_player_idx(s2, user_id),
    decreases s1.len(),
{
    if s1.len() > 0 {
        assert(forall|i: int|
            0 <= i < s1.drop_first().len() ==> (#[trigger] s1.drop_first()[i]).user_id
                == s2.drop_first()[i].user_id);
        lemma_player_idx_same_ids(s1.drop_first(), s2.drop_first(), user_id);
    }
}

/// A found position lies on the list and holds the id.
pub proof fn lemma_first_cter_idx_in_range(s: Seq<BattleCharacter>, cter_id: u32)
    ensures
        match spec_first_cter_idx(s, cter_id) {
            Some(i) => 0 <= i < s.len() && s[i].base_attr.cter_id == cter_id,
            None => true,
        },
    decreases s.len(),
{
    if s.len() > 0 {
        lemma_first_cter_idx_in_range(s.drop_first(), cter_id);
    }
}

/// Lists whose characters carry the same ids agree on every lookup.
pub proof fn lemma_cter_idx_same_ids(s1: Seq<BattleCharacter>, s2: Seq<BattleCharacter>, cter_id: u32)
    requires
        s1.len() == s2.len(),
        forall|i: int|
            0 <= i < s1.len() ==> (#[trigger] s1[i]).base_attr.cter_id == s2[i].base_attr.cter_id,
    ensures
        spec_first_cter_idx(s1, cter_id) == spec_first_cter_idx(s2, cter_id),
    decreases s1.len(),
{
    if s1.len() > 0 {
        assert(forall|i: int|
            0 <= i < s1.drop_first().len() ==> (#[trigger] s1.drop_first()[i]).base_attr.cter_id
                == s2.drop_first()[i].base_attr.cter_id);
        lemma_cter_idx_same_ids(s1.drop_first(), s2.drop_first(), cter_id);
    }
}

/// A list without the character id yields nothing.
pub proof fn lemma_first_cter_idx_none(s: Seq<BattleCharacter>, cter_id: u32)
    requires
        forall|i: int| 0 <= i < s.len() ==> (#[trigger] s[i]).base_attr.cter_id != cter_id,
    ensures
        spec_first_cter_idx(s, cter_id) is None,
    decreases s.len(),
{
    if s.len() > 0 {
        lemma_first_cter_idx_none(s.drop_first(), cter_id);
    }
}

/// All of `b` equals `a` except the outbox.
pub open spec fn spec_same_battle_but_outbox(a: BattleData, b: BattleData) -> bool {
    &&& b.battle_id == a.battle_id
    &&& b.room_type == a.room_type
    &&& b.tile_map == a.tile_map
    &&& b.battle_player == a.battle_player
    &&& b.cters == a.cters
    &&& b.turn_orders == a.turn_orders
    &&& b.next_turn_index == a.next_turn_index
    &&& b.turn == a.turn
    &&& b.round == a.round
    &&& b.cycle_count == a.cycle_count
    &&& b.total_turn_times == a.total_turn_times
    &&& b.day_night == a.day_night
    &&& b.turn_limit_time == a.turn_limit_time
    &&& b.next_cter_id == a.next_cter_id
    &&& b.summary_vec_temp == a.summary_vec_temp
    &&& b.summary_vec == a.summary_vec
    &&& b.leave_map == a.leave_map
    &&& b.task_box == a.task_box
}

/// All of `b` equals `a` except the id counter.
pub open spec fn spec_same_battle_but_next_cter_id(a: BattleData, b: BattleData) -> bool {
    &&& b.battle_id == a.battle_id
    &&& b.room_type == a.room_type
    &&& b.tile_map == a.tile_map
    &&& b.battle_player == a.battle_player
    &&& b.cters == a.cters
    &&& b.turn_orders == a.turn_orders
    &&& b.next_turn_index == a.next_turn_index
    &&& b.turn == a.turn
    &&& b.round == a.round
    &&& b.cycle_count == a.cycle_count
    &&& b.total_turn_times == a.total_turn_times
    &&& b.day_night == a.day_night
    &&& b.turn_limit_time == a.turn_limit_time
    &&& b.summary_vec_temp == a.summary_vec_temp
    &&& b.summary_vec == a.summary_vec
    &&& b.leave_map == a.leave_map
    &&& b.outbox == a.outbox
    &&& b.task_box == a.task_box
}

} // verus!

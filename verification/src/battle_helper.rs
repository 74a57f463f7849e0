//! Engine operations on the battle aggregate: validation of chosen cells
//! and targets, healing and gold rewards, board pairing, and the timers a
//! turn schedules.

use vstd::prelude::*;

use crate::battle::spec_alive_count;
use crate::battle::spec_cter_idx;
use crate::battle::spec_player_idx;
use crate::battle::BattleData;
use crate::battle::battle_wf;
use crate::battle_cter::clamp_hp;
use crate::battle_cter::spec_map_cell_index;
use crate::battle_cter::spec_same_cter_but_hp_state;
use crate::battle_cter::BattleCharacter;
use crate::battle_enum::BattleCterState;
use crate::battle_enum::BattlePlayerState;
use crate::battle_enum::EffectType;
use crate::battle_enum::MapCellType;
use crate::battle_enum::TargetType;
use crate::battle_player::clamp_gold;
use crate::battle_player::spec_same_player_but_flow;
use crate::battle_player::spec_same_player_but_gold;
use crate::battle_player::BattlePlayer;
use crate::battle_player::GOLD_CAP;
use crate::errors::BattleError;
use crate::map_data::MapCell;
use crate::proto::EffectPt;
use crate::proto::TargetPt;
use crate::proto::TriggerEffectPt;
use crate::task_timer::Task;
use crate::task_timer::TaskCmd;
use crate::templates::spec_const_u32;
use crate::templates::TemplatesMgr;

verus! {

/// The smallest hit-point total any other living character has, starting
/// from the sentinel the board uses when nobody else lives.
pub open spec fn spec_min_other_hp(s: Seq<BattleCharacter>, cter_id: u32) -> int
    decreases s.len(),
{
    if s.len() == 0 {
        9999
    } else {
        let rest = spec_min_other_hp(s.drop_last(), cter_id);
        let c = s.last();
        if c.base_attr.cter_id != cter_id && c.state != BattleCterState::Die && c.base_attr.hp
            < rest {
            c.base_attr.hp as int
        } else {
            rest
        }
    }
}

/// What a heal leaves as the target's hit points: never past the
/// character's own ceiling, and never lowered where the total already
/// stands above it.
pub open spec fn spec_heal_hp(cur: int, v: int, maxh: int) -> int {
    if cur >= maxh {
        cur
    } else if cur + v > maxh {
        maxh
    } else {
        cur + v
    }
}

impl BattleData {
    /// True when the board should be refreshed: two or more players still
    /// live and at most two cells are left unpaired.
    pub fn check_refresh_map(&mut self) -> (r: bool)
        ensures
            *final(self) == *old(self),
            r == (spec_alive_count(old(self).battle_player@) >= 2
                && crate::map_data::spec_un_pair_count(old(self).tile_map.un_pair_map@) <= 2),
    {
        let allive_count = self.get_alive_player_num();
        let un_open_count = self.tile_map.un_pair_count();
        allive_count >= 2 && un_open_count <= 2
    }

    /// The player with this user id, or the acting player when none is
    /// named, for mutation.  Fails with `NotFound` for an unknown id and
    /// with `StateViolation` for a dead player that was required alive.
    pub fn get_battle_player_mut(&mut self, user_id: Option<u32>, is_alive: bool) -> (r: Result<
        &mut BattlePlayer,
        BattleError,
    >)
        ensures
            match r {
                Ok(p) => {
                    let uid = (match user_id {
                        Some(u) => u,
                        None => old(self).turn_orders@[old(self).next_turn_index as int],
                    });
                    &&& spec_player_idx(*old(self), uid) matches Some(i)
                        && old(self).battle_player@[i] == *p && final(self).battle_player@ == old(self).battle_player@.update(i, *final(p))
                    &&& (*p).user_id == uid
                    &&& (is_alive ==> (*p).status.battle_state != BattlePlayerState::Died)
                    &&& spec_same_battle_but_players(*old(self), *final(self))
                },
                Err(e) => *final(self) == *old(self) && (match user_id {
                    Some(u) => match spec_player_idx(*old(self), u) {
                        Some(i) => e == BattleError::StateViolation && is_alive && old(self).battle_player@[i].status.battle_state == BattlePlayerState::Died,
                        None => e == BattleError::NotFound,
                    },
                    None => if old(self).next_turn_index >= old(self).turn_orders@.len() {
                        e == BattleError::NotFound
                    } else {
                        match spec_player_idx(
                            *old(self),
                            old(self).turn_orders@[old(self).next_turn_index as int],
                        ) {
                            Some(i) => e == BattleError::StateViolation && is_alive && old(self).battle_player@[i].status.battle_state == BattlePlayerState::Died,
                            None => e == BattleError::NotFound,
                        }
                    },
                }),
            },
    {
        let uid = match user_id {
            Some(u) => u,
            None => {
                match self.get_turn_user(None) {
                    Ok(u) => u,
                    Err(e) => {
                        return Err(e);
                    },
                }
            },
        };
        match self.find_player_idx(uid) {
            Some(i) => {
                if is_alive && self.battle_player[i].status.battle_state
                    == BattlePlayerState::Died {
                    Err(BattleError::StateViolation)
                } else {
                    Ok(&mut self.battle_player[i])
                }
            },
            None => Err(BattleError::NotFound),
        }
    }

    /// The owning player of this character, for mutation.
    pub fn get_battle_player_mut_by_cter_id(&mut self, cter_id: u32, is_alive: bool) -> (r: Result<
        &mut BattlePlayer,
        BattleError,
    >)
        ensures
            match r {
                Ok(p) => (exists|i: int|
                    0 <= i < old(self).battle_player@.len() && old(self).battle_player@[i] == *p
                        && final(self).battle_player@ == old(self).battle_player@.update(
                        i,
                        *final(p),
                    )) && (is_alive ==> (*p).status.battle_state != BattlePlayerState::Died)
                    && spec_same_battle_but_players(*old(self), *final(self)) && (match
                    spec_cter_idx(*old(self), cter_id) {
                    Some(c) => (*p).user_id == old(self).cters@[c].base_attr.user_id,
                    None => false,
                }),
                Err(_) => *final(self) == *old(self),
            },
    {
        let user_id = match self.find_cter_idx(cter_id) {
            Some(i) => self.cters[i].base_attr.user_id,
            None => {
                return Err(BattleError::NotFound);
            },
        };
        match self.find_player_idx(user_id) {
            Some(i) => {
                if is_alive && self.battle_player[i].status.battle_state
                    == BattlePlayerState::Died {
                    Err(BattleError::StateViolation)
                } else {
                    Ok(&mut self.battle_player[i])
                }
            },
            None => Err(BattleError::NotFound),
        }
    }

    /// The character standing on this cell.  Fails with `NotFound` when
    /// the cell is missing, empty, or its occupant id is stale.
    pub fn get_battle_cter_by_map_cell_index(&self, index: usize) -> (r: Result<
        &BattleCharacter,
        BattleError,
    >)
        ensures
            match r {
                Ok(c) => index < self.tile_map.map_cells@.len()
                    && self.tile_map.map_cells@[index as int].cter_id == c.base_attr.cter_id && (
                exists|i: int| 0 <= i < self.cters@.len() && self.cters@[i] == *c)
                    && c.base_attr.cter_id != 0,
                Err(_) => true,
            },
    {
        if index >= self.tile_map.map_cells.len() {
            return Err(BattleError::NotFound);
        }
        let cter_id = self.tile_map.map_cells[index].cter_id;
        if cter_id == 0 {
            return Err(BattleError::NotFound);
        }
        match self.find_cter_idx(cter_id) {
            Some(i) => Ok(&self.cters[i]),
            None => Err(BattleError::NotFound),
        }
    }

    /// The player owning the character on this cell.
    pub fn get_battle_player_by_map_cell_index(&self, index: usize) -> (r: Result<
        &BattlePlayer,
        BattleError,
    >)
        ensures
            match r {
                Ok(p) => exists|i: int|
                    0 <= i < self.battle_player@.len() && self.battle_player@[i] == *p,
                Err(_) => true,
            },
    {
        let user_id = match self.get_battle_cter_by_map_cell_index(index) {
            Ok(c) => c.base_attr.user_id,
            Err(e) => {
                return Err(e);
            },
        };
        match self.find_player_idx(user_id) {
            Some(i) => Ok(&self.battle_player[i]),
            None => Err(BattleError::NotFound),
        }
    }

    /// True when this character's hit points are strictly below every
    /// other living character's.
    pub fn is_min_hp(&self, cter_id: u32) -> (r: bool)
        ensures
            r == (match spec_cter_idx(*self, cter_id) {
                Some(i) => self.cters@[i].base_attr.hp < spec_min_other_hp(self.cters@, cter_id),
                None => false,
            }),
    {
        let idx = match self.find_cter_idx(cter_id) {
            Some(i) => i,
            None => {
                return false;
            },
        };
        let hp = self.cters[idx].base_attr.hp;
        let mut min_hp: i32 = 9999;
        let mut i: usize = 0;
        while i < self.cters.len()
            invariant
                0 <= i <= self.cters@.len(),
                min_hp == spec_min_other_hp(self.cters@.subrange(0, i as int), cter_id),
            decreases self.cters@.len() - i,
        {
            proof {
                let next = self.cters@.subrange(0, i as int + 1);
                assert(next.drop_last() =~= self.cters@.subrange(0, i as int));
            }
            let c = &self.cters[i];
            if c.base_attr.cter_id != cter_id && c.state != BattleCterState::Die
                && c.base_attr.hp < min_hp {
                min_hp = c.base_attr.hp;
            }
            i = i + 1;
        }
        proof {
            assert(self.cters@.subrange(0, self.cters@.len() as int) =~= self.cters@);
        }
        hp < min_hp
    }

    /// A fresh target record naming the cell this character stands on.
    pub fn new_target_pt(&self, cter_id: u32) -> (r: Result<TargetPt, BattleError>)
        ensures
            match r {
                Ok(pt) => (match spec_cter_idx(*self, cter_id) {
                    Some(i) => pt.target_value@ == seq![
                        spec_map_cell_index(self.cters@[i]) as u32,
                    ],
                    None => false,
                }) && pt.effects@.len() == 0 && pt.passive_effects@.len() == 0
                    && pt.add_buffs@.len() == 0 && pt.lost_buffs@.len() == 0,
                Err(e) => e == BattleError::NotFound && spec_cter_idx(*self, cter_id) is None,
            },
    {
        match self.find_cter_idx(cter_id) {
            Some(i) => {
                let mut pt = TargetPt::new();
                let index = self.cters[i].get_map_cell_index();
                pt.target_value.push(index as u32);
                proof {
                    assert(pt.target_value@ =~= seq![
                        spec_map_cell_index(self.cters@[i as int]) as u32,
                    ]);
                }
                Ok(pt)
            },
            None => Err(BattleError::NotFound),
        }
    }

    /// A target record for one applied effect on a living character: the
    /// target's cell, and the effect as a passive trigger when a buff of
    /// the target itself caused it, as a plain effect otherwise.
    #[verifier::rlimit(50)]
    pub fn build_target_pt(
        &self,
        from_cter_id: Option<u32>,
        target_cter_id: u32,
        effect_type: EffectType,
        effect_value: u32,
        buff_id: Option<u32>,
    ) -> (r: Result<TargetPt, BattleError>)
        requires
            battle_wf(*self),
        ensures
            match r {
                Ok(pt) => {
                    let self_inflicted = from_cter_id == Some(target_cter_id) && buff_id is Some;
                    &&& (match spec_cter_idx(*self, target_cter_id) {
                        Some(i) => pt.target_value@ == seq![
                            spec_map_cell_index(self.cters@[i]) as u32,
                        ] && self.cters@[i].state != BattleCterState::Die,
                        None => false,
                    })
                    &&& (self_inflicted ==> pt.passive_effects@.len() == 1 && pt.effects@.len()
                        == 0 && pt.passive_effects@[0].field_type == effect_type.spec_into_u32()
                        && pt.passive_effects@[0].value == effect_value
                        && pt.passive_effects@[0].buff_id == buff_id.unwrap())
                    &&& (!self_inflicted ==> pt.effects@.len() == 1
                        && pt.passive_effects@.len() == 0 && pt.effects@[0].effect_type
                        == effect_type.spec_into_u32() && pt.effects@[0].effect_value
                        == effect_value)
                },
                Err(e) => match spec_cter_idx(*self, target_cter_id) {
                    Some(i) => e == BattleError::StateViolation && self.cters@[i].state
                        == BattleCterState::Die,
                    None => e == BattleError::NotFound,
                },
            },
    {
        let target_cter = match self.get_battle_cter(target_cter_id, true) {
            Ok(c) => c,
            Err(e) => {
                return Err(e);
            },
        };
        proof {
            let j = choose|j: int| 0 <= j < self.cters@.len() && self.cters@[j] == *target_cter;
            crate::battle::lemma_cter_idx_unique(self.cters@, target_cter_id, j);
        }
        let mut target_pt = TargetPt::new();
        target_pt.target_value.push(target_cter.get_map_cell_index() as u32);
        let self_inflicted = match (from_cter_id, buff_id) {
            (Some(f), Some(_)) => f == target_cter_id,
            _ => false,
        };
        if self_inflicted {
            let mut tep = TriggerEffectPt::new();
            tep.field_type = effect_type.into_u32();
            tep.value = effect_value;
            tep.buff_id = match buff_id {
                Some(b) => b,
                None => 0,
            };
            target_pt.passive_effects.push(tep);
        } else {
            let mut ep = EffectPt::new();
            ep.effect_type = effect_type.into_u32();
            ep.effect_value = effect_value;
            target_pt.effects.push(ep);
        }
        proof {
            let j = choose|j: int| 0 <= j < self.cters@.len() && self.cters@[j] == *target_cter;
            assert(target_pt.target_value@ =~= seq![spec_map_cell_index(self.cters@[j]) as u32]);
        }
        Ok(target_pt)
    }

    /// Checks a list of proposed target users: each must be a player of
    /// the battle, and none may be the caller when self-targeting is
    /// excluded.
    pub fn check_user_target(&self, vec: &[u32], check_self_id: Option<u32>) -> (r: Result<
        (),
        BattleError,
    >)
        ensures
            match r {
                Ok(_) => forall|k: int|
                    0 <= k < vec@.len() ==> spec_user_target_ok(
                        *self,
                        #[trigger] vec@[k],
                        check_self_id,
                    ),
                Err(e) => (e == BattleError::NotFound || e == BattleError::InvalidTarget) && (
                exists|k: int|
                    0 <= k < vec@.len() && !spec_user_target_ok(
                        *self,
                        #[trigger] vec@[k],
                        check_self_id,
                    )),
            },
    {
        let mut k: usize = 0;
        while k < vec.len()
            invariant
                0 <= k <= vec@.len(),
                forall|j: int|
                    0 <= j < k ==> spec_user_target_ok(*self, #[trigger] vec@[j], check_self_id),
            decreases vec@.len() - k,
        {
            let member_id = vec[k];
            match self.find_player_idx(member_id) {
                Some(i) => {
                    proof {
                        assert(self.battle_player@[i as int].user_id == member_id);
                    }
                },
                None => {
                    proof {
                        assert(!spec_user_target_ok(*self, vec@[k as int], check_self_id));
                    }
                    return Err(BattleError::NotFound);
                },
            }
            if let Some(s) = check_self_id {
                if member_id == s {
                    proof {
                        assert(!spec_user_target_ok(*self, vec@[k as int], check_self_id));
                    }
                    return Err(BattleError::InvalidTarget);
                }
            }
            k = k + 1;
        }
        Ok(())
    }

    /// Checks one chosen cell against the given constraints: the cell must
    /// exist and be of a playable kind; the flags then demand it flipped
    /// open, or closed, or unpaired, or not a world cell, or unlocked, or
    /// unoccupied.
    pub fn check_choice_index(
        &self,
        index: usize,
        is_check_close: bool,
        is_check_open: bool,
        is_check_pair: bool,
        is_check_world: bool,
        is_check_locked: bool,
        is_check_has_user: bool,
    ) -> (r: Result<(), BattleError>)
        ensures
            r is Ok <==> index < self.tile_map.map_cells@.len() && spec_choice_ok(
                self.tile_map.map_cells@[index as int],
                is_check_close,
                is_check_open,
                is_check_pair,
                is_check_world,
                is_check_locked,
                is_check_has_user,
            ),
            match r {
                Ok(_) => true,
                Err(e) => if index >= self.tile_map.map_cells@.len() {
                    e == BattleError::NotFound
                } else {
                    e == BattleError::InvalidTarget || e == BattleError::StateViolation
                },
            },
    {
        if index >= self.tile_map.map_cells.len() {
            return Err(BattleError::NotFound);
        }
        let map_cell = &self.tile_map.map_cells[index];
        let kind_ok = match map_cell.cell_type {
            MapCellType::Valid => true,
            MapCellType::WorldCell => true,
            MapCellType::MarketCell => true,
            _ => false,
        };
        if !kind_ok {
            return Err(BattleError::InvalidTarget);
        }
        if is_check_close && map_cell.open_cter == 0 {
            return Err(BattleError::StateViolation);
        }
        if is_check_open && map_cell.open_cter != 0 {
            return Err(BattleError::StateViolation);
        }
        if is_check_open && map_cell.pair_index.is_some() {
            return Err(BattleError::StateViolation);
        }
        if is_check_pair && map_cell.pair_index.is_some() {
            return Err(BattleError::StateViolation);
        }
        if is_check_world && map_cell.is_world() {
            return Err(BattleError::InvalidTarget);
        }
        if is_check_locked && map_cell.check_is_locked() {
            return Err(BattleError::StateViolation);
        }
        if is_check_has_user && map_cell.cter_id != 0 {
            return Err(BattleError::StateViolation);
        }
        Ok(())
    }

    /// Heals a living character by `hp`, never past its own hit-point
    /// ceiling, and reports the cure as a target record.  Healing a dead
    /// character is an error and changes nothing.
    #[verifier::rlimit(100)]
    pub fn add_hp(
        &mut self,
        from_cter_id: Option<u32>,
        target_cter_id: u32,
        hp: u16,
        buff_id: Option<u32>,
    ) -> (r: Result<TargetPt, BattleError>)
        requires
            battle_wf(*old(self)),
        ensures
            battle_wf(*final(self)),
            match r {
                Ok(pt) => spec_cter_idx(*old(self), target_cter_id) matches Some(i) && old(self).cters@[i].state != BattleCterState::Die && final(self).cters@ == old(self).cters@.update(
                    i,
                    final(self).cters@[i],
                ) && final(self).cters@[i].base_attr.hp == spec_heal_hp(
                    old(self).cters@[i].base_attr.hp as int,
                    hp as int,
                    old(self).cters@[i].base_attr.max_hp as int,
                ) && spec_same_cter_but_hp_state(old(self).cters@[i], final(self).cters@[i])
                    && spec_same_battle_but_cters(*old(self), *final(self)) && {
                    let self_inflicted = from_cter_id == Some(target_cter_id) && buff_id is Some;
                    &&& pt.target_value@ == seq![
                        spec_map_cell_index(old(self).cters@[i]) as u32,
                    ]
                    &&& (self_inflicted ==> pt.passive_effects@.len() == 1 && pt.effects@.len()
                        == 0 && pt.passive_effects@[0].field_type
                        == EffectType::Cure.spec_into_u32() && pt.passive_effects@[0].value
                        == hp as u32 && pt.passive_effects@[0].buff_id == buff_id.unwrap())
                    &&& (!self_inflicted ==> pt.effects@.len() == 1
                        && pt.passive_effects@.len() == 0 && pt.effects@[0].effect_type
                        == EffectType::Cure.spec_into_u32() && pt.effects@[0].effect_value == hp as u32)
                },
                Err(e) => *final(self) == *old(self) && (match spec_cter_idx(
                    *old(self),
                    target_cter_id,
                ) {
                    Some(i) => e == BattleError::StateViolation && old(self).cters@[i].state
                        == BattleCterState::Die,
                    None => e == BattleError::NotFound,
                }),
            },
    {
        let idx = match self.find_cter_idx(target_cter_id) {
            Some(i) => i,
            None => {
                return Err(BattleError::NotFound);
            },
        };
        if self.cters[idx].state == BattleCterState::Die {
            return Err(BattleError::StateViolation);
        }
        proof {
            reveal(crate::battle_cter::cter_wf);
        }
        let ghost pre = *self;
        // healing saturates at the character's own ceiling
        let cur = self.cters[idx].base_attr.hp;
        let maxh = self.cters[idx].base_attr.max_hp;
        let eff: i32 = if cur >= maxh {
            0
        } else if (hp as i32) > maxh - cur {
            maxh - cur
        } else {
            hp as i32
        };
        let battle_cter = &mut self.cters[idx];
        let _ = battle_cter.add_hp(eff);
        proof {
            lemma_wf_after_cter_update(pre, *self, idx as int);
            crate::battle::lemma_cter_idx_same_ids(pre.cters@, self.cters@, target_cter_id);
        }
        let target_pt = self.build_target_pt(
            from_cter_id,
            target_cter_id,
            EffectType::Cure,
            hp as u32,
            buff_id,
        );
        match target_pt {
            Ok(pt) => Ok(pt),
            Err(e) => {
                // the target was just found alive and stays alive through
                // a heal, so the record cannot be missing
                proof {
                    assert(false);
                }
                Err(e)
            },
        }
    }

    /// Applies the bookkeeping of one flipped cell: history, gold,
    /// mission progress, and the cell's opener.
    #[verifier::rlimit(100)]
    #[verifier::spinoff_prover]
    fn apply_open_cell(&mut self, pi: usize, index: usize, reward: i32)
        requires
            battle_wf(*old(self)),
            pi < old(self).battle_player@.len(),
            index < old(self).tile_map.map_cells@.len(),
            0 <= reward <= GOLD_CAP as int,
        ensures
            battle_wf(*final(self)),
            final(self).battle_player@ == old(self).battle_player@.update(
                pi as int,
                final(self).battle_player@[pi as int],
            ),
            final(self).battle_player@[pi as int].gold == clamp_gold(
                old(self).battle_player@[pi as int].gold + reward,
            ),
            final(self).battle_player@[pi as int].flow_data.open_map_cell_vec_history@ == old(self).battle_player@[pi as int].flow_data.open_map_cell_vec_history@.push(index),
            final(self).battle_player@[pi as int].mission_log@ == old(self).battle_player@[
                pi as int
            ].mission_log@.push(
                (
                    crate::battle_enum::MissionTriggerType::OpenCell,
                    1u16,
                    old(self).tile_map.map_cells@[index as int].element,
                ),
            ).push(
                (
                    crate::battle_enum::MissionTriggerType::GetGold,
                    (reward as u16),
                    old(self).tile_map.map_cells@[index as int].element,
                ),
            ),
            final(self).tile_map.map_cells@ == old(self).tile_map.map_cells@.update(
                index as int,
                final(self).tile_map.map_cells@[index as int],
            ),
            final(self).tile_map.map_cells@[index as int].open_cter == old(self).battle_player@[pi as int].current_cter,
            crate::map_data::spec_same_cell_but_open_cter(
                old(self).tile_map.map_cells@[index as int],
                final(self).tile_map.map_cells@[index as int],
            ),
            final(self).tile_map.un_pair_map@ == old(self).tile_map.un_pair_map@,
            final(self).cters == old(self).cters,
            final(self).turn_orders == old(self).turn_orders,
            final(self).next_turn_index == old(self).next_turn_index,
            final(self).outbox == old(self).outbox,
            final(self).task_box == old(self).task_box,
            final(self).turn == old(self).turn,
            final(self).round == old(self).round,
    {
        proof {
            reveal(crate::battle_player::player_wf);
        }
        let cter_id;
        let element = self.tile_map.map_cells[index].element;
        {
            let battle_player = &mut self.battle_player[pi];
            battle_player.add_open_map_cell(index);
            cter_id = battle_player.current_cter;
            battle_player.add_gold(reward);
            // the flip and its gold are announced to the mission system,
            // keyed by the cell's element
            battle_player.mission_log.push(
                (crate::battle_enum::MissionTriggerType::OpenCell, 1u16, element),
            );
            #[verifier::truncate]
            let gold_value: u16 = reward as u16;
            battle_player.mission_log.push(
                (crate::battle_enum::MissionTriggerType::GetGold, gold_value, element),
            );
        }
        {
            let map_cell = &mut self.tile_map.map_cells[index];
            map_cell.open_cter = cter_id;
        }
        proof {
            let pre = *old(self);
            assert(self.battle_player@ =~= pre.battle_player@.update(
                pi as int,
                self.battle_player@[pi as int],
            ));
            assert(self.tile_map.map_cells@ =~= pre.tile_map.map_cells@.update(
                index as int,
                self.tile_map.map_cells@[index as int],
            ));
            assert(crate::battle_player::player_wf(self.battle_player@[pi as int]));
            lemma_wf_after_cell_open(pre, *self, pi as int, index as int);
        }
    }

    /// Pays the configured reward for flipping a cell open, records the
    /// flip in the player's history and on the cell, and fires the
    /// open-cell and gold mission hooks with the cell's element.  Fails
    /// when the player or the cell is missing.
    #[verifier::rlimit(100)]
    pub fn exec_open_map_cell(&mut self, temps: &TemplatesMgr, user_id: u32, index: usize) -> (r:
        Result<(), BattleError>)
        requires
            battle_wf(*old(self)),
        ensures
            battle_wf(*final(self)),
            match r {
                Ok(_) => {
                    let gold = spec_const_u32(
                        temps.constant_temp_mgr.temps@,
                        "reward_gold_open_cell"@,
                        1,
                    );
                    &&& spec_player_idx(*old(self), user_id) matches Some(p) && index < old(self).tile_map.map_cells@.len()
                    &&& {
                        let pi = spec_player_idx(*old(self), user_id).unwrap();
                        let oldp = old(self).battle_player@[pi];
                        let newp = final(self).battle_player@[pi];
                        &&& final(self).battle_player@ == old(self).battle_player@.update(pi, newp)
                        &&& newp.gold == clamp_gold(oldp.gold + (if gold > GOLD_CAP as int {
                            GOLD_CAP as int
                        } else {
                            gold
                        }))
                        &&& newp.flow_data.open_map_cell_vec_history@
                            == oldp.flow_data.open_map_cell_vec_history@.push(index)
                        &&& newp.mission_log@ == oldp.mission_log@.push(
                            (
                                crate::battle_enum::MissionTriggerType::OpenCell,
                                1u16,
                                old(self).tile_map.map_cells@[index as int].element,
                            ),
                        ).push(
                            (
                                crate::battle_enum::MissionTriggerType::GetGold,
                                ((if gold > GOLD_CAP as int {
                                    GOLD_CAP as int
                                } else {
                                    gold
                                }) as u16),
                                old(self).tile_map.map_cells@[index as int].element,
                            ),
                        )
                        &&& final(self).tile_map.map_cells@[index as int].open_cter
                            == oldp.current_cter
                        &&& crate::map_data::spec_same_cell_but_open_cter(
                            old(self).tile_map.map_cells@[index as int],
                            final(self).tile_map.map_cells@[index as int],
                        )
                    }
                },
                Err(e) => *final(self) == *old(self) && e == BattleError::NotFound && (
                spec_player_idx(*old(self), user_id) is None || index >= old(self).tile_map.map_cells@.len()),
            },
    {
        let pi = match self.find_player_idx(user_id) {
            Some(i) => i,
            None => {
                return Err(BattleError::NotFound);
            },
        };
        if index >= self.tile_map.map_cells.len() {
            return Err(BattleError::NotFound);
        }
        let reward = temps.constant_temp_mgr().get_value_u32(
            &String::from_str("reward_gold_open_cell"),
            1,
        );
        let reward_i32: i32 = if reward > GOLD_CAP as u32 {
            GOLD_CAP
        } else {
            reward as i32
        };
        self.apply_open_cell(pi, index, reward_i32);
        Ok(())
    }


    /// The open-cell hook, on its pairing side: when the flip made a
    /// pair, the opener\'s pair-limited skills join the whitelist of
    /// skills the pair unlocked, and the configured pairing gold is paid
    /// exactly once; without a pair nothing changes.
    #[verifier::rlimit(100)]
    #[verifier::spinoff_prover]
    pub fn open_map_cell_trigger(&mut self, temps: &TemplatesMgr, cter_id: u32, is_pair: bool)
        -> (r: Result<(), BattleError>)
        requires
            battle_wf(*old(self)),
        ensures
            battle_wf(*final(self)),
            !is_pair ==> *final(self) == *old(self) && r is Ok,
            r matches Err(e) ==> *final(self) == *old(self) && e == BattleError::NotFound,
            is_pair ==> (r is Ok <==> (match spec_cter_idx(*old(self), cter_id) {
                Some(ci) => spec_player_idx(
                    *old(self),
                    old(self).cters@[ci].base_attr.user_id,
                ) is Some,
                None => false,
            })),
            (is_pair && r is Ok) ==> (match spec_cter_idx(*old(self), cter_id) {
                Some(ci) => match spec_player_idx(
                    *old(self),
                    old(self).cters@[ci].base_attr.user_id,
                ) {
                    Some(pi) => {
                        let gold = spec_const_u32(
                            temps.constant_temp_mgr.temps@,
                            "reward_gold_pair_cell"@,
                            2,
                        );
                        let paid = if gold > GOLD_CAP as int {
                            GOLD_CAP as int
                        } else {
                            gold
                        };
                        &&& spec_same_battle_but_players(*old(self), *final(self))
                        &&& final(self).battle_player@ == old(self).battle_player@.update(
                            pi,
                            final(self).battle_player@[pi],
                        )
                        &&& final(self).battle_player@[pi].gold == clamp_gold(
                            old(self).battle_player@[pi].gold + paid,
                        )
                        &&& (forall|k: int|
                            0 <= k < old(self).cters@[ci].skills@.len() && (#[trigger] old(self).cters@[ci].skills@[k]).function_id
                                == crate::battle_enum::SKILL_PAIR_LIMIT_DAMAGE ==> final(self).battle_player@[pi].flow_data.pair_usable_skills@.contains(
                                old(self).cters@[ci].skills@[k].id,
                            ))
                        &&& {
                            let eidx = crate::battle_cter::spec_map_cell_index(
                                old(self).cters@[ci],
                            );
                            let element = if (eidx as int) < old(
                                self,
                            ).tile_map.map_cells@.len() {
                                old(self).tile_map.map_cells@[eidx as int].element
                            } else {
                                0u8
                            };
                            final(self).battle_player@[pi].mission_log@ == old(
                                self,
                            ).battle_player@[pi].mission_log@.push(
                                (crate::battle_enum::MissionTriggerType::Pair, 1u16, element),
                            ).push(
                                (
                                    crate::battle_enum::MissionTriggerType::GetGold,
                                    (paid as u16),
                                    element,
                                ),
                            )
                        }
                    },
                    None => true,
                },
                None => true,
            }),
    {
        if !is_pair {
            return Ok(());
        }
        let ci = match self.find_cter_idx(cter_id) {
            Some(i) => i,
            None => {
                return Err(BattleError::NotFound);
            },
        };
        let user_id = self.cters[ci].base_attr.user_id;
        let pi = match self.find_player_idx(user_id) {
            Some(i) => i,
            None => {
                return Err(BattleError::NotFound);
            },
        };
        let reward = temps.constant_temp_mgr().get_value_u32(
            &String::from_str("reward_gold_pair_cell"),
            2,
        );
        let paid: i32 = if reward > GOLD_CAP as u32 {
            GOLD_CAP
        } else {
            reward as i32
        };
        let ghost pre = *self;
        // the pair-limited skills join the whitelist, once each
        let nskills = self.cters[ci].skills.len();
        let mut k: usize = 0;
        while k < nskills
            invariant
                battle_wf(*self),
                ci < self.cters@.len(),
                pi < self.battle_player@.len(),
                nskills == self.cters@[ci as int].skills@.len(),
                0 <= k <= nskills,
                self.cters@ == pre.cters@,
                spec_same_battle_but_players(pre, *self),
                self.battle_player@.len() == pre.battle_player@.len(),
                forall|j: int|
                    0 <= j < self.battle_player@.len() && j != pi as int
                        ==> #[trigger] self.battle_player@[j] == pre.battle_player@[j],
                self.battle_player@[pi as int].user_id == pre.battle_player@[pi as int].user_id,
                self.battle_player@[pi as int].gold == pre.battle_player@[pi as int].gold,
                crate::battle_player::spec_same_player_but_flow(
                    pre.battle_player@[pi as int],
                    self.battle_player@[pi as int],
                ),
                forall|j: int|
                    0 <= j < k && (#[trigger] self.cters@[ci as int].skills@[j]).function_id
                        == crate::battle_enum::SKILL_PAIR_LIMIT_DAMAGE ==> self.battle_player@[
                        pi as int
                    ].flow_data.pair_usable_skills@.contains(
                        self.cters@[ci as int].skills@[j].id,
                    ),
            decreases nskills - k,
        {
            let sid = self.cters[ci].skills[k].id;
            let sfn = self.cters[ci].skills[k].function_id;
            if sfn == crate::battle_enum::SKILL_PAIR_LIMIT_DAMAGE {
                let already_in = crate::battle_player::contains_u32(
                    &self.battle_player[pi].flow_data.pair_usable_skills,
                    sid,
                );
                if !already_in {
                    let ghost mid = *self;
                    {
                        let p = &mut self.battle_player[pi];
                        p.flow_data.pair_usable_skills.push(sid);
                    }
                    proof {
                        reveal(crate::battle_player::player_wf);
                        assert(self.battle_player@ =~= mid.battle_player@.update(
                            pi as int,
                            self.battle_player@[pi as int],
                        ));
                        lemma_wf_after_player_update(mid, *self, pi as int);
                        assert(forall|j: int|
                            0 <= j < mid.battle_player@[
                                pi as int
                            ].flow_data.pair_usable_skills@.len()
                                ==> self.battle_player@[
                                pi as int
                            ].flow_data.pair_usable_skills@[j] == #[trigger] mid.battle_player@[
                                pi as int
                            ].flow_data.pair_usable_skills@[j]);
                        assert forall|w: u32|
                            mid.battle_player@[
                                pi as int
                            ].flow_data.pair_usable_skills@.contains(w) implies self.battle_player@[
                            pi as int
                        ].flow_data.pair_usable_skills@.contains(w) by {
                            let j = choose|j: int|
                                0 <= j < mid.battle_player@[
                                    pi as int
                                ].flow_data.pair_usable_skills@.len() && mid.battle_player@[
                                    pi as int
                                ].flow_data.pair_usable_skills@[j] == w;
                            assert(self.battle_player@[
                                pi as int
                            ].flow_data.pair_usable_skills@[j] == w);
                        }
                        assert(self.battle_player@[
                            pi as int
                        ].flow_data.pair_usable_skills@.last() == sid);
                    }
                }
            }
            k = k + 1;
        }
        // the pairing gold, paid exactly once, and the pair and gold
        // mission hooks keyed by the opener's cell element
        let eidx = self.cters[ci].get_map_cell_index();
        let element: u8 = if eidx < self.tile_map.map_cells.len() {
            self.tile_map.map_cells[eidx].element
        } else {
            0
        };
        let ghost mid2 = *self;
        {
            let p = &mut self.battle_player[pi];
            proof {
                reveal(crate::battle_player::player_wf);
            }
            p.add_gold(paid);
            p.mission_log.push((crate::battle_enum::MissionTriggerType::Pair, 1u16, element));
            #[verifier::truncate]
            let gold_value: u16 = paid as u16;
            p.mission_log.push(
                (crate::battle_enum::MissionTriggerType::GetGold, gold_value, element),
            );
        }
        proof {
            reveal(crate::battle_player::player_wf);
            assert(self.battle_player@ =~= mid2.battle_player@.update(
                pi as int,
                self.battle_player@[pi as int],
            ));
            lemma_wf_after_player_update(mid2, *self, pi as int);
            assert(self.battle_player@ =~= pre.battle_player@.update(
                pi as int,
                self.battle_player@[pi as int],
            ));
        }
        Ok(())
    }

    /// Fires one mission hook for this player: what happened, its value,
    /// and the element of the cell involved join the player's log, for
    /// the (external) mission system to count.
    pub fn trigger_mission(
        &mut self,
        user_id: u32,
        kind: crate::battle_enum::MissionTriggerType,
        value: u16,
        element: u8,
    )
        ensures
            spec_same_battle_but_players(*old(self), *final(self)),
            final(self).battle_player@.len() == old(self).battle_player@.len(),
            match spec_player_idx(*old(self), user_id) {
                Some(i) => final(self).battle_player@ == old(self).battle_player@.update(
                    i,
                    final(self).battle_player@[i],
                ) && final(self).battle_player@[i].mission_log@ == old(
                    self,
                ).battle_player@[i].mission_log@.push((kind, value, element))
                    && spec_same_player_but_mission(
                    old(self).battle_player@[i],
                    final(self).battle_player@[i],
                ),
                None => final(self).battle_player@ == old(self).battle_player@,
            },
    {
        match self.find_player_idx(user_id) {
            Some(i) => {
                let p = &mut self.battle_player[i];
                p.mission_log.push((kind, value, element));
            },
            None => {},
        }
    }

    /// Schedules the turn timer for the acting player, unless turns are
    /// untimed.  The queued task carries everything a stale fire is later
    /// checked against: the battle id, the turn, and the acting user.
    pub fn build_battle_turn_task(&mut self)
        requires
            battle_wf(*old(self)),
        ensures
            spec_same_battle_but_task_box(*old(self), *final(self)),
            old(self).turn_limit_time == 0 ==> final(self).task_box@ == old(self).task_box@,
            old(self).turn_limit_time != 0 ==> final(self).task_box@ == old(self).task_box@.push(
                Task {
                    cmd: TaskCmd::BattleTurnTime,
                    delay: old(self).turn_limit_time,
                    turn: old(self).turn,
                    battle_id: old(self).battle_id,
                    user_id: old(self).turn_orders@[old(self).next_turn_index as int],
                },
            ),
    {
        let user_id = self.turn_orders[self.next_turn_index];
        let time_limit = self.turn_limit_time;
        if time_limit == 0 {
            return ;
        }
        let task = Task {
            cmd: TaskCmd::BattleTurnTime,
            delay: time_limit,
            turn: self.turn,
            battle_id: self.battle_id,
            user_id,
        };
        self.task_box.push(task);
    }
}

impl BattleData {
    /// Marries two unpaired cells and resets the pairing player's turn
    /// flow: both cells point at each other and leave the unpaired set,
    /// the player may attack, and its movement and open list are spent.
    #[verifier::rlimit(100)]
    #[verifier::spinoff_prover]
    fn apply_pair(&mut self, pi: usize, index: usize, m: usize)
        requires
            battle_wf(*old(self)),
            pi < old(self).battle_player@.len(),
            index < old(self).tile_map.map_cells@.len(),
            m < old(self).tile_map.map_cells@.len(),
            m != index,
            old(self).tile_map.map_cells@[index as int].pair_index is None,
            old(self).tile_map.map_cells@[m as int].pair_index is None,
        ensures
            battle_wf(*final(self)),
            final(self).tile_map.map_cells@.len() == old(self).tile_map.map_cells@.len(),
            final(self).tile_map.map_cells@[index as int].pair_index == Some(m),
            final(self).tile_map.map_cells@[m as int].pair_index == Some(index),
            final(self).tile_map.un_pair_map@.len() == old(self).tile_map.un_pair_map@.len(),
            final(self).tile_map.un_pair_map@.len() == final(self).tile_map.map_cells@.len(),
            index < final(self).tile_map.un_pair_map@.len() ==> final(self).tile_map.un_pair_map@[index as int] == false,
            m < final(self).tile_map.un_pair_map@.len() ==> final(self).tile_map.un_pair_map@[
                m as int
            ] == false,
            final(self).battle_player@ == old(self).battle_player@.update(
                pi as int,
                final(self).battle_player@[pi as int],
            ),
            final(self).battle_player@[pi as int].flow_data.open_map_cell_vec@.len() == 0,
            final(self).battle_player@[pi as int].flow_data.residue_movement_points == 0,
            final(self).battle_player@[pi as int].status.is_pair == true,
            final(self).battle_player@[pi as int].user_id == old(self).battle_player@[
                pi as int
            ].user_id,
    {
        let ghost pre = *self;
        {
            let cell = &mut self.tile_map.map_cells[index];
            cell.pair_index = Some(m);
        }
        {
            let cell = &mut self.tile_map.map_cells[m];
            cell.pair_index = Some(index);
        }
        self.tile_map.remove_un_pair(index);
        self.tile_map.remove_un_pair(m);
        {
            let battle_player = &mut self.battle_player[pi];
            battle_player.status.is_pair = true;
            if battle_player.status.attack_state != crate::battle_enum::AttackState::Locked {
                battle_player.change_attack_able();
            }
            battle_player.clear_residue_movement_points();
            battle_player.flow_data.open_map_cell_vec = Vec::new();
        }
        proof {
            reveal(crate::battle_player::player_wf);
            reveal(crate::map_data::tile_map_wf);
            assert(self.battle_player@ =~= pre.battle_player@.update(
                pi as int,
                self.battle_player@[pi as int],
            ));
            lemma_wf_after_pairing(pre, *self, pi as int, index as int, m as int);
        }
    }

    /// Pairs a freshly flipped cell with the matching cell the player
    /// flipped earlier this turn, if one is there.
    ///
    /// Pairing is symmetric and exclusive: on success both cells point at
    /// each other, both leave the unpaired set, the player may attack and
    /// loses the rest of this turn's movement; on failure the flipped
    /// cell only joins the player's open list.  A cell that is already
    /// paired is never paired again.
    #[verifier::rlimit(100)]
    #[verifier::spinoff_prover]
    pub fn handler_map_cell_pair(&mut self, user_id: u32, index: usize) -> (is_pair: bool)
        requires
            battle_wf(*old(self)),
            index < old(self).tile_map.map_cells@.len(),
            old(self).tile_map.map_cells@[index as int].pair_index is None,
            forall|k: int|
                0 <= k < old(self).battle_player@.len() ==> spec_open_list_valid(
                    *old(self),
                    #[trigger] old(self).battle_player@[k],
                    index,
                ),
        ensures
            battle_wf(*final(self)),
            spec_player_idx(*old(self), user_id) is None ==> *final(self) == *old(self)
                && !is_pair,
            spec_player_idx(*old(self), user_id) matches Some(pi) ==> {
                let oldp = old(self).battle_player@[pi];
                let oldcells = old(self).tile_map.map_cells@;
                let newcells = final(self).tile_map.map_cells@;
                let newflags = final(self).tile_map.un_pair_map@;
                &&& is_pair == (exists|m: usize|
                    oldp.flow_data.open_map_cell_vec@.contains(m) && (
                    #[trigger] oldcells[m as int]).id == oldcells[index as int].id)
                &&& if is_pair {
                    (exists|m: usize|
                        oldp.flow_data.open_map_cell_vec@.contains(m)
                            && (#[trigger] oldcells[m as int]).id == oldcells[index as int].id
                            && newcells[index as int].pair_index == Some(m) && newcells[
                            m as int
                        ].pair_index == Some(index) && newflags[index as int] == false
                            && newflags[m as int] == false) && {
                        let newp = final(self).battle_player@[pi];
                        &&& newp.flow_data.open_map_cell_vec@.len() == 0
                        &&& newp.flow_data.residue_movement_points == 0
                        &&& newp.status.is_pair == true
                    }
                } else {
                    newcells == oldcells
                        && final(self).battle_player@[pi].flow_data.open_map_cell_vec@
                        == oldp.flow_data.open_map_cell_vec@.push(index)
                }
            },
    {
        let pi = match self.find_player_idx(user_id) {
            Some(i) => i,
            None => {
                return false;
            },
        };
        let map_cell_id = self.tile_map.map_cells[index].id;
        // look for an earlier flip of the same tile id
        let mut match_index: Option<usize> = None;
        {
            let open_list = &self.battle_player[pi].flow_data.open_map_cell_vec;
            let mut k: usize = 0;
            while k < open_list.len() && match_index.is_none()
                invariant
                    0 <= k <= open_list@.len(),
                    forall|j: int|
                        0 <= j < open_list@.len() ==> (#[trigger] open_list@[j])
                            < self.tile_map.map_cells@.len(),
                    match match_index {
                        Some(m) => open_list@.contains(m)
                            && self.tile_map.map_cells@[m as int].id == map_cell_id,
                        None => forall|j: int|
                            0 <= j < k ==> self.tile_map.map_cells@[(
                            #[trigger] open_list@[j]) as int].id != map_cell_id,
                    },
                    map_cell_id == self.tile_map.map_cells@[index as int].id,
                decreases open_list@.len() - k,
            {
                let open_index = open_list[k];
                if self.tile_map.map_cells[open_index].id == map_cell_id {
                    proof {
                        assert(open_list@[k as int] == open_index);
                    }
                    match_index = Some(open_index);
                }
                k = k + 1;
            }
            proof {
                if match_index is None {
                    assert(forall|j: int|
                        0 <= j < open_list@.len() ==> self.tile_map.map_cells@[(
                        #[trigger] open_list@[j]) as int].id != map_cell_id);
                }
            }
        }
        match match_index {
            Some(m) => {
                proof {
                    let oldp = old(self).battle_player@[pi as int];
                    let lst = oldp.flow_data.open_map_cell_vec@;
                    let j = choose|j: int| 0 <= j < lst.len() && lst[j] == m;
                    assert(m < self.tile_map.map_cells@.len() && m != index
                        && self.tile_map.map_cells@[m as int].pair_index is None);
                }
                self.apply_pair(pi, index, m);
                proof {
                    let oldp = old(self).battle_player@[pi as int];
                    let oldcells = old(self).tile_map.map_cells@;
                    assert(oldp.flow_data.open_map_cell_vec@.contains(m) && oldcells[
                        m as int
                    ].id == oldcells[index as int].id && self.tile_map.map_cells@[
                        index as int
                    ].pair_index == Some(m) && self.tile_map.map_cells@[m as int].pair_index
                        == Some(index) && self.tile_map.un_pair_map@[index as int] == false
                        && self.tile_map.un_pair_map@[m as int] == false);
                }
                true
            },
            None => {
                let ghost pre = *self;
                proof {
                    let lst = pre.battle_player@[pi as int].flow_data.open_map_cell_vec@;
                    assert(forall|j: int|
                        0 <= j < lst.len() ==> pre.tile_map.map_cells@[(
                        #[trigger] lst[j]) as int].id != map_cell_id);
                    assert forall|m: usize| lst.contains(m) implies pre.tile_map.map_cells@[
                        m as int
                    ].id != map_cell_id by {
                        let j = choose|j: int| 0 <= j < lst.len() && lst[j] == m;
                        assert(lst[j] == m);
                    };
                }
                {
                    let battle_player = &mut self.battle_player[pi];
                    battle_player.flow_data.open_map_cell_vec.push(index);
                }
                proof {
                    reveal(crate::battle_player::player_wf);
                    assert(self.battle_player@ =~= pre.battle_player@.update(
                        pi as int,
                        self.battle_player@[pi as int],
                    ));
                    assert(crate::battle_player::player_wf(self.battle_player@[pi as int]));
                    assert(battle_wf(*self)) by {
                        assert(forall|k: int|
                            0 <= k < self.battle_player@.len() && k != pi
                                ==> #[trigger] self.battle_player@[k] == pre.battle_player@[k]);
                    }
                }
                false
            },
        }
    }
}


/// The user that owns the character standing on this cell, when the cell
/// exists, is occupied, and its occupant id is current.
pub open spec fn spec_cell_occupant_user(b: BattleData, index: int) -> Option<u32> {
    if 0 <= index < b.tile_map.map_cells@.len() && b.tile_map.map_cells@[index].cter_id != 0 {
        match spec_cter_idx(b, b.tile_map.map_cells@[index].cter_id) {
            Some(ci) => Some(b.cters@[ci].base_attr.user_id),
            None => None,
        }
    } else {
        None
    }
}

/// The team of the player owning this cell's occupant, resolved through
/// the player table.
pub open spec fn spec_cell_occupant_team(b: BattleData, index: int) -> Option<u8> {
    match spec_cell_occupant_user(b, index) {
        Some(u) => match spec_player_idx(b, u) {
            Some(p) => Some(b.battle_player@[p].team_id),
            None => None,
        },
        None => None,
    }
}

/// What a proposed target list must satisfy for its target kind: an
/// empty list is a no-op; otherwise the first index passes the playable
/// and non-world cell checks, and every index satisfies the kind's own
/// rule on cell state, occupancy, team and self-exclusion.
pub open spec fn spec_target_array_ok(
    b: BattleData,
    user_id: u32,
    target_type: TargetType,
    ts: Seq<u32>,
) -> bool {
    if ts.len() == 0 {
        true
    } else {
        &&& (ts[0] as int) < b.tile_map.map_cells@.len()
        &&& spec_choice_ok(
            b.tile_map.map_cells@[ts[0] as int],
            false,
            false,
            false,
            true,
            false,
            false,
        )
        &&& match target_type {
            TargetType::AnyPlayer => match spec_cell_occupant_user(b, ts[0] as int) {
                Some(u) => spec_user_target_ok(b, u, None),
                None => false,
            },
            TargetType::PlayerSelf => ts.len() == 1 && (match spec_cell_occupant_user(
                b,
                ts[0] as int,
            ) {
                Some(u) => u == user_id,
                None => false,
            }),
            TargetType::AllPlayer => forall|k: int|
                0 <= k < ts.len() ==> (match spec_cell_occupant_user(b, #[trigger] ts[k] as int) {
                    Some(u) => spec_user_target_ok(b, u, None),
                    None => false,
                }),
            TargetType::OtherAllPlayer => forall|k: int|
                0 <= k < ts.len() ==> (match spec_cell_occupant_user(b, #[trigger] ts[k] as int) {
                    Some(u) => spec_user_target_ok(b, u, Some(user_id)),
                    None => false,
                }),
            TargetType::OtherAnyPlayer | TargetType::SelfScopeOthers => match
            spec_cell_occupant_user(b, ts[0] as int) {
                Some(u) => spec_user_target_ok(b, u, Some(user_id)),
                None => false,
            },
            TargetType::MapCell => spec_cells_pass(b, ts, false, false, false, false, false, false),
            TargetType::UnOpenMapCell => spec_cells_pass(b, ts, false, true, true, true, false, false),
            TargetType::UnPairMapCell => spec_cells_pass(b, ts, false, false, true, true, true, false),
            TargetType::NullMapCell => spec_cells_pass(b, ts, false, false, false, true, false, true),
            TargetType::UnPairNullMapCell => spec_cells_pass(b, ts, false, false, false, false, false, true),
            TargetType::OpenedMapCell => spec_cells_pass(b, ts, true, false, false, true, false, false),
            TargetType::UnOpenMapCellAndUnLock => spec_cells_pass(b, ts, false, true, false, true, true, false),
            TargetType::UnLockNullMapCell => spec_cells_pass(b, ts, false, false, false, true, true, true),
            TargetType::UnOpenNullMapCell => spec_cells_pass(b, ts, false, true, true, true, false, true),
            TargetType::AllEnemyCters | TargetType::SelfScopeAllEnemyCters
                | TargetType::AnyEnemyCter | TargetType::SelfScopeAnyEnemyCters => match
            spec_player_idx(b, user_id) {
                Some(p) => forall|k: int|
                    0 <= k < ts.len() ==> (match spec_cell_occupant_team(
                        b,
                        #[trigger] ts[k] as int,
                    ) {
                        Some(t) => t != b.battle_player@[p].team_id,
                        None => false,
                    }),
                None => false,
            },
            TargetType::AllTeamCters | TargetType::AnyTeamCter => match spec_player_idx(
                b,
                user_id,
            ) {
                Some(p) => forall|k: int|
                    0 <= k < ts.len() ==> (match spec_cell_occupant_team(
                        b,
                        #[trigger] ts[k] as int,
                    ) {
                        Some(t) => t == b.battle_player@[p].team_id,
                        None => false,
                    }),
                None => false,
            },
            TargetType::NoneTarget => false,
            _ => true,
        }
    }
}

/// Every index of the list names a board cell that passes the enabled
/// constraints.
pub open spec fn spec_cells_pass(
    b: BattleData,
    ts: Seq<u32>,
    is_check_close: bool,
    is_check_open: bool,
    is_check_pair: bool,
    is_check_world: bool,
    is_check_locked: bool,
    is_check_has_user: bool,
) -> bool {
    forall|k: int|
        0 <= k < ts.len() ==> (#[trigger] ts[k] as int) < b.tile_map.map_cells@.len()
            && spec_choice_ok(
            b.tile_map.map_cells@[ts[k] as int],
            is_check_close,
            is_check_open,
            is_check_pair,
            is_check_world,
            is_check_locked,
            is_check_has_user,
        )
}

impl BattleData {
    /// The user owning this cell's occupant, when the cell exists, is
    /// occupied, and its occupant id is current.
    fn cell_occupant_user(&self, index: usize) -> (r: Option<u32>)
        ensures
            r == spec_cell_occupant_user(*self, index as int),
    {
        if index >= self.tile_map.map_cells.len() {
            return None;
        }
        let cter_id = self.tile_map.map_cells[index].cter_id;
        if cter_id == 0 {
            return None;
        }
        match self.find_cter_idx(cter_id) {
            Some(ci) => Some(self.cters[ci].base_attr.user_id),
            None => None,
        }
    }

    /// Checks every index of the list against the enabled cell
    /// constraints, reporting the first failure.
    fn check_cells(
        &self,
        ts: &[u32],
        is_check_close: bool,
        is_check_open: bool,
        is_check_pair: bool,
        is_check_world: bool,
        is_check_locked: bool,
        is_check_has_user: bool,
    ) -> (r: Result<(), BattleError>)
        ensures
            r is Ok <==> spec_cells_pass(
                *self,
                ts@,
                is_check_close,
                is_check_open,
                is_check_pair,
                is_check_world,
                is_check_locked,
                is_check_has_user,
            ),
            r matches Err(e) ==> e == BattleError::NotFound || e == BattleError::InvalidTarget
                || e == BattleError::StateViolation,
    {
        let mut k: usize = 0;
        while k < ts.len()
            invariant
                0 <= k <= ts@.len(),
                forall|j: int|
                    0 <= j < k ==> (#[trigger] ts@[j] as int) < self.tile_map.map_cells@.len()
                        && spec_choice_ok(
                        self.tile_map.map_cells@[ts@[j] as int],
                        is_check_close,
                        is_check_open,
                        is_check_pair,
                        is_check_world,
                        is_check_locked,
                        is_check_has_user,
                    ),
            decreases ts@.len() - k,
        {
            match self.check_choice_index(
                ts[k] as usize,
                is_check_close,
                is_check_open,
                is_check_pair,
                is_check_world,
                is_check_locked,
                is_check_has_user,
            ) {
                Ok(_) => {},
                Err(e) => {
                    return Err(e);
                },
            }
            k = k + 1;
        }
        Ok(())
    }

    /// Checks every index of the list against the acting player's team:
    /// each cell must hold a character whose player is on the other team
    /// for an enemy kind, or on the same team for a team kind.
    fn check_occupant_teams(&self, ts: &[u32], team_id: u8, want_same: bool) -> (r: Result<
        (),
        BattleError,
    >)
        ensures
            r is Ok <==> (forall|k: int|
                0 <= k < ts@.len() ==> (match spec_cell_occupant_team(
                    *self,
                    #[trigger] ts@[k] as int,
                ) {
                    Some(t) => (t == team_id) == want_same,
                    None => false,
                })),
            r matches Err(e) ==> e == BattleError::NotFound || e == BattleError::InvalidTarget,
    {
        let mut k: usize = 0;
        while k < ts.len()
            invariant
                0 <= k <= ts@.len(),
                forall|j: int|
                    0 <= j < k ==> (match spec_cell_occupant_team(
                        *self,
                        #[trigger] ts@[j] as int,
                    ) {
                        Some(t) => (t == team_id) == want_same,
                        None => false,
                    }),
            decreases ts@.len() - k,
        {
            let occ = self.cell_occupant_user(ts[k] as usize);
            let u = match occ {
                Some(u) => u,
                None => {
                    return Err(BattleError::NotFound);
                },
            };
            match self.find_player_idx(u) {
                Some(p) => {
                    if (self.battle_player[p].team_id == team_id) != want_same {
                        return Err(BattleError::InvalidTarget);
                    }
                },
                None => {
                    return Err(BattleError::NotFound);
                },
            }
            k = k + 1;
        }
        Ok(())
    }

    /// Validates a player-chosen target list against its target kind.
    ///
    /// An empty list is a no-op, not an error.  Otherwise the first index
    /// must name a playable, non-world cell, and every index must meet
    /// the kind's own rule: the right occupant, team or self-exclusion
    /// for player kinds, or the right cell state for map-cell kinds.
    #[verifier::rlimit(100)]
    #[verifier::spinoff_prover]
    pub fn check_target_array(&self, user_id: u32, target_type: TargetType, target_array: &[u32])
        -> (r: Result<(), BattleError>)
        requires
            battle_wf(*self),
        ensures
            r is Ok <==> spec_target_array_ok(*self, user_id, target_type, target_array@),
            r matches Err(e) ==> e == BattleError::NotFound || e == BattleError::InvalidTarget
                || e == BattleError::StateViolation,
    {
        if target_array.len() == 0 {
            return Ok(());
        }
        let center_index = target_array[0] as usize;
        match self.check_choice_index(center_index, false, false, false, true, false, false) {
            Ok(_) => {},
            Err(e) => {
                return Err(e);
            },
        }
        match target_type {
            TargetType::AnyPlayer => {
                match self.cell_occupant_user(target_array[0] as usize) {
                    Some(u) => {
                        match self.find_player_idx(u) {
                            Some(_) => Ok(()),
                            None => Err(BattleError::NotFound),
                        }
                    },
                    None => Err(BattleError::NotFound),
                }
            },
            TargetType::PlayerSelf => {
                if target_array.len() > 1 {
                    return Err(BattleError::InvalidTarget);
                }
                match self.cell_occupant_user(target_array[0] as usize) {
                    Some(u) => {
                        if u == user_id {
                            Ok(())
                        } else {
                            Err(BattleError::InvalidTarget)
                        }
                    },
                    None => Err(BattleError::NotFound),
                }
            },
            TargetType::AllPlayer => self.check_occupant_players(target_array, None),
            TargetType::OtherAllPlayer => self.check_occupant_players(
                target_array,
                Some(user_id),
            ),
            TargetType::OtherAnyPlayer | TargetType::SelfScopeOthers => {
                match self.cell_occupant_user(target_array[0] as usize) {
                    Some(u) => {
                        if u == user_id {
                            return Err(BattleError::InvalidTarget);
                        }
                        match self.find_player_idx(u) {
                            Some(_) => Ok(()),
                            None => Err(BattleError::NotFound),
                        }
                    },
                    None => Err(BattleError::NotFound),
                }
            },
            TargetType::MapCell => self.check_cells(
                target_array,
                false,
                false,
                false,
                false,
                false,
                false,
            ),
            TargetType::UnOpenMapCell => self.check_cells(
                target_array,
                false,
                true,
                true,
                true,
                false,
                false,
            ),
            TargetType::UnPairMapCell => self.check_cells(
                target_array,
                false,
                false,
                true,
                true,
                true,
                false,
            ),
            TargetType::NullMapCell => self.check_cells(
                target_array,
                false,
                false,
                false,
                true,
                false,
                true,
            ),
            TargetType::UnPairNullMapCell => self.check_cells(
                target_array,
                false,
                false,
                false,
                false,
                false,
                true,
            ),
            TargetType::OpenedMapCell => self.check_cells(
                target_array,
                true,
                false,
                false,
                true,
                false,
                false,
            ),
            TargetType::UnOpenMapCellAndUnLock => self.check_cells(
                target_array,
                false,
                true,
                false,
                true,
                true,
                false,
            ),
            TargetType::UnLockNullMapCell => self.check_cells(
                target_array,
                false,
                false,
                false,
                true,
                true,
                true,
            ),
            TargetType::UnOpenNullMapCell => self.check_cells(
                target_array,
                false,
                true,
                true,
                true,
                false,
                true,
            ),
            TargetType::AllEnemyCters | TargetType::SelfScopeAllEnemyCters
                | TargetType::AnyEnemyCter | TargetType::SelfScopeAnyEnemyCters => {
                let team_id = match self.find_player_idx(user_id) {
                    Some(p) => self.battle_player[p].team_id,
                    None => {
                        return Err(BattleError::NotFound);
                    },
                };
                self.check_occupant_teams(target_array, team_id, false)
            },
            TargetType::AllTeamCters | TargetType::AnyTeamCter => {
                let team_id = match self.find_player_idx(user_id) {
                    Some(p) => self.battle_player[p].team_id,
                    None => {
                        return Err(BattleError::NotFound);
                    },
                };
                self.check_occupant_teams(target_array, team_id, true)
            },
            TargetType::NoneTarget => Err(BattleError::InvalidTarget),
            _ => Ok(()),
        }
    }

    /// Checks that every index of the list names a cell whose occupant
    /// belongs to a player of the battle, excluding the given user when
    /// self-targeting is forbidden.
    fn check_occupant_players(&self, ts: &[u32], check_self_id: Option<u32>) -> (r: Result<
        (),
        BattleError,
    >)
        ensures
            r is Ok <==> (forall|k: int|
                0 <= k < ts@.len() ==> (match spec_cell_occupant_user(
                    *self,
                    #[trigger] ts@[k] as int,
                ) {
                    Some(u) => spec_user_target_ok(*self, u, check_self_id),
                    None => false,
                })),
            r matches Err(e) ==> e == BattleError::NotFound || e == BattleError::InvalidTarget,
    {
        let mut k: usize = 0;
        while k < ts.len()
            invariant
                0 <= k <= ts@.len(),
                forall|j: int|
                    0 <= j < k ==> (match spec_cell_occupant_user(
                        *self,
                        #[trigger] ts@[j] as int,
                    ) {
                        Some(u) => spec_user_target_ok(*self, u, check_self_id),
                        None => false,
                    }),
            decreases ts@.len() - k,
        {
            let occ = self.cell_occupant_user(ts[k] as usize);
            let u = match occ {
                Some(u) => u,
                None => {
                    return Err(BattleError::NotFound);
                },
            };
            if let Some(sid) = check_self_id {
                if u == sid {
                    return Err(BattleError::InvalidTarget);
                }
            }
            match self.find_player_idx(u) {
                Some(_) => {},
                None => {
                    return Err(BattleError::NotFound);
                },
            }
            k = k + 1;
        }
        Ok(())
    }
}

/// The player's open list holds only valid, still-unpaired cells other
/// than the one being flipped.
pub open spec fn spec_open_list_valid(b: BattleData, p: crate::battle_player::BattlePlayer, index: usize) -> bool {
    forall|j: int|
        0 <= j < p.flow_data.open_map_cell_vec@.len() ==> (
        #[trigger] p.flow_data.open_map_cell_vec@[j]) < b.tile_map.map_cells@.len()
            && b.tile_map.map_cells@[p.flow_data.open_map_cell_vec@[j] as int].pair_index is None
            && p.flow_data.open_map_cell_vec@[j] != index
}

/// Pairing two distinct unpaired cells and resetting the pairing
/// player's turn flow keeps the aggregate well-formed.
#[verifier::rlimit(100)]
#[verifier::spinoff_prover]
pub proof fn lemma_wf_after_pairing(a: BattleData, b: BattleData, pi: int, index: int, m: int)
    requires
        battle_wf(a),
        0 <= pi < a.battle_player@.len(),
        0 <= index < a.tile_map.map_cells@.len(),
        0 <= m < a.tile_map.map_cells@.len(),
        m != index,
        a.tile_map.map_cells@[index].pair_index is None,
        a.tile_map.map_cells@[m].pair_index is None,
        b.tile_map.map_cells@ == a.tile_map.map_cells@.update(
            index,
            b.tile_map.map_cells@[index],
        ).update(m, b.tile_map.map_cells@[m]),
        crate::map_data::spec_same_cell_but_pair(
            a.tile_map.map_cells@[index],
            b.tile_map.map_cells@[index],
        ),
        crate::map_data::spec_same_cell_but_pair(
            a.tile_map.map_cells@[m],
            b.tile_map.map_cells@[m],
        ),
        b.tile_map.map_cells@[index].pair_index == Some(m as usize),
        b.tile_map.map_cells@[m].pair_index == Some(index as usize),
        b.tile_map.un_pair_map@.len() == a.tile_map.un_pair_map@.len(),
        forall|i: int|
            0 <= i < b.tile_map.un_pair_map@.len() && #[trigger] b.tile_map.un_pair_map@[i]
                ==> a.tile_map.un_pair_map@[i] && i != index && i != m,
        b.battle_player@ == a.battle_player@.update(pi, b.battle_player@[pi]),
        crate::battle_player::player_wf(b.battle_player@[pi]),
        b.battle_player@[pi].user_id == a.battle_player@[pi].user_id,
        b.cters == a.cters,
        b.turn_orders == a.turn_orders,
        b.next_turn_index == a.next_turn_index,
    ensures
        battle_wf(b),
{
    assert(forall|k: int|
        0 <= k < b.battle_player@.len() && k != pi ==> #[trigger] b.battle_player@[k]
            == a.battle_player@[k]);
    crate::map_data::lemma_tile_wf_after_pairing(a.tile_map, b.tile_map, index, m);
}

/// All of `b` equals `a` except the board's cells.
pub open spec fn spec_same_battle_but_board_and_people(a: BattleData, b: BattleData) -> bool {
    &&& b.battle_id == a.battle_id
    &&& b.room_type == a.room_type
    &&& b.tile_map.id == a.tile_map.id
    &&& b.tile_map.un_pair_map@ == a.tile_map.un_pair_map@
    &&& b.turn_orders == a.turn_orders
    &&& b.next_turn_index == a.next_turn_index
    &&& b.turn == a.turn
    &&& b.round == a.round
    &&& b.cycle_count == a.cycle_count
    &&& b.total_turn_times == a.total_turn_times
    &&& b.day_night == a.day_night
    &&& b.turn_limit_time == a.turn_limit_time
    &&& b.next_cter_id == a.next_cter_id
    &&& b.summary_vec_temp == a.summary_vec_temp
    &&& b.summary_vec == a.summary_vec
    &&& b.leave_map == a.leave_map
    &&& b.outbox == a.outbox
    &&& b.task_box == a.task_box
}

/// Clearing one cell's occupancy keeps the aggregate well-formed.
#[verifier::rlimit(100)]
#[verifier::spinoff_prover]
pub proof fn lemma_wf_after_cell_occupancy(a: BattleData, b: BattleData, index: int)
    requires
        battle_wf(a),
        0 <= index < a.tile_map.map_cells@.len(),
        b.tile_map.map_cells@ == a.tile_map.map_cells@.update(
            index,
            b.tile_map.map_cells@[index],
        ),
        b.tile_map.un_pair_map@ == a.tile_map.un_pair_map@,
        b.tile_map.id == a.tile_map.id,
        crate::map_data::spec_same_cell_but_cter(
            a.tile_map.map_cells@[index],
            b.tile_map.map_cells@[index],
        ),
        b.battle_player == a.battle_player,
        b.cters == a.cters,
        b.turn_orders == a.turn_orders,
        b.next_turn_index == a.next_turn_index,
    ensures
        battle_wf(b),
{
    assert(forall|i: int|
        0 <= i < b.tile_map.map_cells@.len() && i != index ==> b.tile_map.map_cells@[i]
            == a.tile_map.map_cells@[i]);
    assert(crate::map_data::tile_map_wf(b.tile_map)) by {
        reveal(crate::map_data::tile_map_wf);
        assert(forall|i: int|
            0 <= i < b.tile_map.map_cells@.len() ==> (#[trigger] b.tile_map.map_cells@[i]).index
                == a.tile_map.map_cells@[i].index && b.tile_map.map_cells@[i].pair_index
                == a.tile_map.map_cells@[i].pair_index);
    }
}

/// One proposed target user is acceptable: a player of the battle, and
/// not the caller when self-targeting is excluded.
pub open spec fn spec_user_target_ok(b: BattleData, u: u32, check_self_id: Option<u32>) -> bool {
    &&& exists|i: int|
        0 <= i < b.battle_player@.len() && (#[trigger] b.battle_player@[i]).user_id == u
    &&& match check_self_id {
        Some(s) => u != s,
        None => true,
    }
}

/// Whether one chosen cell passes every enabled constraint: the cell is
/// of a playable kind, and the flags then demand it flipped open, or
/// closed, or unpaired, or not a world cell, or unlocked, or unoccupied.
pub open spec fn spec_choice_ok(
    cell: MapCell,
    is_check_close: bool,
    is_check_open: bool,
    is_check_pair: bool,
    is_check_world: bool,
    is_check_locked: bool,
    is_check_has_user: bool,
) -> bool {
    &&& (cell.cell_type == MapCellType::Valid || cell.cell_type == MapCellType::WorldCell
        || cell.cell_type == MapCellType::MarketCell)
    &&& (is_check_close ==> cell.open_cter != 0)
    &&& (is_check_open ==> cell.open_cter == 0 && cell.pair_index is None)
    &&& (is_check_pair ==> cell.pair_index is None)
    &&& (is_check_world ==> cell.cell_type != MapCellType::WorldCell)
    &&& (is_check_locked ==> !spec_cell_locked(cell))
    &&& (is_check_has_user ==> cell.cter_id == 0)
}

/// True while some buff of the cell locks it.
pub open spec fn spec_cell_locked(cell: MapCell) -> bool {
    exists|i: int|
        0 <= i < cell.buffs@.len() && (#[trigger] cell.buffs@[i]).function_id
            == crate::map_data::LOCK_CELL
}

/// All of `b` equals `a` except the player table.
pub open spec fn spec_same_battle_but_players(a: BattleData, b: BattleData) -> bool {
    &&& b.battle_id == a.battle_id
    &&& b.room_type == a.room_type
    &&& b.tile_map == a.tile_map
    &&& b.cters == a.cters
    &&& b.turn_orders == a.turn_orders
    &&& b.next_turn_index == a.next_turn_index
    &&& b.turn == a.turn
    &&& b.round == a.round
    &&& b.cycle_count == a.cycle_count
    &&& b.total_turn_times == a.total_turn_times
    &&& b.day_night == a.day_night
    &&& b.turn_limit_time == a.turn_limit_time
    &&& b.next_cter_id == a.next_cter_id
    &&& b.summary_vec_temp == a.summary_vec_temp
    &&& b.summary_vec == a.summary_vec
    &&& b.leave_map == a.leave_map
    &&& b.outbox == a.outbox
    &&& b.task_box == a.task_box
}

/// All of `b` equals `a` except the character arena.
pub open spec fn spec_same_battle_but_cters(a: BattleData, b: BattleData) -> bool {
    &&& b.battle_id == a.battle_id
    &&& b.room_type == a.room_type
    &&& b.tile_map == a.tile_map
    &&& b.battle_player == a.battle_player
    &&& b.turn_orders == a.turn_orders
    &&& b.next_turn_index == a.next_turn_index
    &&& b.turn == a.turn
    &&& b.round == a.round
    &&& b.cycle_count == a.cycle_count
    &&& b.total_turn_times == a.total_turn_times
    &&& b.day_night == a.day_night
    &&& b.turn_limit_time == a.turn_limit_time
    &&& b.next_cter_id == a.next_cter_id
    &&& b.summary_vec_temp == a.summary_vec_temp
    &&& b.summary_vec == a.summary_vec
    &&& b.leave_map == a.leave_map
    &&& b.outbox == a.outbox
    &&& b.task_box == a.task_box
}

/// All of `b` equals `a` except the task box.
pub open spec fn spec_same_battle_but_task_box(a: BattleData, b: BattleData) -> bool {
    &&& b.battle_id == a.battle_id
    &&& b.room_type == a.room_type
    &&& b.tile_map == a.tile_map
    &&& b.battle_player == a.battle_player
    &&& b.cters == a.cters
    &&& b.turn_orders == a.turn_orders
    &&& b.next_turn_index == a.next_turn_index
    &&& b.turn == a.turn
    &&& b.round == a.round
    &&& b.cycle_count == a.cycle_count
    &&& b.total_turn_times == a.total_turn_times
    &&& b.day_night == a.day_night
    &&& b.turn_limit_time == a.turn_limit_time
    &&& b.next_cter_id == a.next_cter_id
    &&& b.summary_vec_temp == a.summary_vec_temp
    &&& b.summary_vec == a.summary_vec
    &&& b.leave_map == a.leave_map
    &&& b.outbox == a.outbox
}

/// All of `b` equals `a` except one player's mission log.
pub open spec fn spec_same_player_but_mission(a: BattlePlayer, b: BattlePlayer) -> bool {
    &&& b.user_id == a.user_id
    &&& b.name == a.name
    &&& b.team_id == a.team_id
    &&& b.grade == a.grade
    &&& b.gold == a.gold
    &&& b.major_cter == a.major_cter
    &&& b.current_cter == a.current_cter
    &&& b.cters == a.cters
    &&& b.league == a.league
    &&& b.flow_data == a.flow_data
    &&& b.status == a.status
    &&& b.robot == a.robot
    &&& b.is_world_boss == a.is_world_boss
}

/// Updating one player and flipping one cell open keeps the aggregate
/// well-formed, as long as the new player value is well-formed and keeps
/// its user id and the cell keeps everything but its opener.
#[verifier::rlimit(100)]
pub proof fn lemma_wf_after_cell_open(a: BattleData, b: BattleData, pi: int, index: int)
    requires
        battle_wf(a),
        0 <= pi < a.battle_player@.len(),
        0 <= index < a.tile_map.map_cells@.len(),
        b.battle_player@ == a.battle_player@.update(pi, b.battle_player@[pi]),
        crate::battle_player::player_wf(b.battle_player@[pi]),
        b.battle_player@[pi].user_id == a.battle_player@[pi].user_id,
        b.cters == a.cters,
        b.turn_orders == a.turn_orders,
        b.next_turn_index == a.next_turn_index,
        b.tile_map.un_pair_map@ == a.tile_map.un_pair_map@,
        b.tile_map.map_cells@ == a.tile_map.map_cells@.update(
            index,
            b.tile_map.map_cells@[index],
        ),
        crate::map_data::spec_same_cell_but_open_cter(
            a.tile_map.map_cells@[index],
            b.tile_map.map_cells@[index],
        ),
    ensures
        battle_wf(b),
{
    assert(forall|k: int|
        0 <= k < b.battle_player@.len() && k != pi ==> #[trigger] b.battle_player@[k]
            == a.battle_player@[k]);
    assert(forall|i: int|
        0 <= i < b.tile_map.map_cells@.len() && i != index ==> #[trigger] b.tile_map.map_cells@[i]
            == a.tile_map.map_cells@[i]);
    assert(crate::map_data::tile_map_wf(b.tile_map)) by {
        reveal(crate::map_data::tile_map_wf);
        assert(forall|i: int|
            0 <= i < b.tile_map.map_cells@.len() ==> (#[trigger] b.tile_map.map_cells@[i]).index
                == a.tile_map.map_cells@[i].index && b.tile_map.map_cells@[i].pair_index
                == a.tile_map.map_cells@[i].pair_index);
    }
}

/// Updating one character in place keeps the aggregate well-formed, as
/// long as the new value is well-formed and keeps its id.
#[verifier::rlimit(100)]
pub proof fn lemma_wf_after_cter_update(a: BattleData, b: BattleData, i: int)
    requires
        battle_wf(a),
        0 <= i < a.cters@.len(),
        b.cters@ == a.cters@.update(i, b.cters@[i]),
        crate::battle_cter::cter_wf(b.cters@[i]),
        b.cters@[i].base_attr.cter_id == a.cters@[i].base_attr.cter_id,
        spec_same_battle_but_cters(a, b),
    ensures
        battle_wf(b),
{
    assert(forall|k: int| 0 <= k < b.cters@.len() && k != i ==> b.cters@[k] == a.cters@[k]);
}

/// Updating one player in place keeps the aggregate well-formed, as long
/// as the new value is well-formed and keeps its user id.
#[verifier::rlimit(100)]
pub proof fn lemma_wf_after_player_update(a: BattleData, b: BattleData, i: int)
    requires
        battle_wf(a),
        0 <= i < a.battle_player@.len(),
        b.battle_player@ == a.battle_player@.update(i, b.battle_player@[i]),
        crate::battle_player::player_wf(b.battle_player@[i]),
        b.battle_player@[i].user_id == a.battle_player@[i].user_id,
        spec_same_battle_but_players(a, b) || (b.tile_map.map_cells@.len()
            == a.tile_map.map_cells@.len() && crate::map_data::tile_map_wf(b.tile_map)
            && b.cters == a.cters && b.turn_orders == a.turn_orders && b.next_turn_index
            == a.next_turn_index),
    ensures
        battle_wf(b),
{
    assert(forall|k: int|
        0 <= k < b.battle_player@.len() && k != i ==> b.battle_player@[k] == a.battle_player@[k]);
}

} // verus!

//! The damage pipeline and the death cascades: effective defence, attack
//! and skill damage, the guard and petrify buffs, and what follows a
//! character's or a player's death.

use vstd::prelude::*;

use crate::battle::spec_cter_idx;
use crate::battle::spec_player_idx;
use crate::battle::BattleData;
use crate::battle::battle_wf;
use crate::battle_buff::Buff;
use crate::battle_cter::clamp_hp;
use crate::battle_cter::spec_find_function;
use crate::battle_cter::HP_CAP;
use crate::battle_enum::spec_is_sub_damage_buff;
use crate::battle_enum::BattleCterState;
use crate::battle_enum::DamageType;
use crate::battle_enum::EffectType;
use crate::battle_enum::TargetType;
use crate::battle_cter::BattleCharacter;
use crate::battle_enum::ATTACKED_SUB_DAMAGE;
use crate::battle_enum::ALL_CROW_DIE_REFRESH_SKILL_CD;
use crate::battle_enum::DayNight;
use crate::battle_enum::GD_ATTACK_DAMAGE;
use crate::battle_enum::SUMMON_CROW;
use crate::battle_enum::NEAR_ATTACKED_DAMAGE_ZERO;
use crate::battle_enum::NEAR_SUB_ATTACK_DAMAGE;
use crate::battle_enum::STONE_BUFF;
use crate::battle_enum::TRIGGER_SCOPE_NEAR_TEMP_ID;
use crate::battle_helper::spec_min_other_hp;
use crate::battle_player::BattlePlayer;
use crate::battle_player::SummaryUser;
use crate::battle_player::clamp_gold;
use crate::battle::spec_alive_count;
use crate::battle_player::GOLD_CAP;
use crate::errors::BattleError;
use crate::proto::EffectPt;
use crate::proto::TargetPt;
use crate::scope::spec_scope_user_hit;
use crate::templates::spec_const_u32;
use crate::templates::spec_find_scope;
use crate::templates::TemplatesMgr;

verus! {

/// What one damage-reduction buff takes off an incoming attack: nothing
/// when a melee-only buff faces a distant attacker, everything for the
/// melee nullifier, and the stronger parameter while the holder has the
/// lowest hit points on the board.
pub open spec fn spec_sub_damage_one(
    b: Buff,
    near: bool,
    is_min_hp: bool,
    damage: int,
) -> int {
    if !spec_is_sub_damage_buff(b.function_id) {
        0
    } else if (b.function_id == NEAR_SUB_ATTACK_DAMAGE || b.function_id
        == NEAR_ATTACKED_DAMAGE_ZERO) && !near {
        0
    } else if b.function_id == NEAR_ATTACKED_DAMAGE_ZERO {
        damage
    } else if b.function_id == ATTACKED_SUB_DAMAGE && is_min_hp {
        b.buff_temp.par2 as int
    } else {
        b.buff_temp.par1 as int
    }
}

/// Total reduction the target's buffs grant, one stack per instance.
pub open spec fn spec_sub_damage_total(
    buffs: Seq<Buff>,
    near: bool,
    is_min_hp: bool,
    damage: int,
) -> int
    decreases buffs.len(),
{
    if buffs.len() == 0 {
        0
    } else {
        spec_sub_damage_total(buffs.drop_last(), near, is_min_hp, damage) + spec_sub_damage_one(
            buffs.last(),
            near,
            is_min_hp,
            damage,
        )
    }
}

/// Whether the attacker counts as adjacent to the target: it belongs to
/// what the catalog's ring template matches around the target's cell.
pub open spec fn spec_attack_is_near(b: BattleData, temps: TemplatesMgr, from_cter_id: u32, target_cter_id: u32) -> bool {
    match spec_find_scope(temps.skill_scope_temp_mgr.temps@, TRIGGER_SCOPE_NEAR_TEMP_ID) {
        Some(st) => match spec_cter_idx(b, target_cter_id) {
            Some(ti) => {
                let raw = crate::battle_cter::spec_map_cell_index(b.cters@[ti]) as int;
                let center = if raw > 0x10000 {
                    0x10000int
                } else {
                    raw
                };
                if center >= b.tile_map.map_cells@.len() {
                    false
                } else if st.scope@.len() == 0 && st.id
                    == crate::battle_enum::GLOBAL_SCOPE_TEMP_ID {
                    exists|j: int|
                        0 <= j < b.cters@.len() && (#[trigger] b.cters@[j]).base_attr.cter_id
                            == from_cter_id && b.cters@[j].state != BattleCterState::Die
                } else if st.scope@.len() == 0 && st.scope2d@.len() == 0 {
                    exists|j: int|
                        0 <= j < b.cters@.len() && (#[trigger] b.cters@[j]).base_attr.cter_id
                            == from_cter_id && crate::scope::spec_scope_filter(
                            TargetType::NoneTarget,
                            target_cter_id,
                            b.cters@[ti].base_attr.team_id,
                            b.cters@[j],
                        )
                } else {
                    spec_scope_user_hit(
                        b,
                        st.scope2d@,
                        center,
                        None,
                        TargetType::NoneTarget,
                        target_cter_id,
                        b.cters@[ti].base_attr.team_id,
                        from_cter_id,
                    )
                }
            },
            None => false,
        },
        None => false,
    }
}

/// The clamped effective defence of the character at `ti`, given whether
/// the attacker counted as adjacent.
pub open spec fn spec_reduce_value(b: BattleData, ti: int, near: bool, target_cter_id: u32, damage: int) -> int {
    clamp_damage(
        b.cters@[ti].base_attr.defence + spec_sub_damage_total(
            b.cters@[ti].battle_buffs.buffs@,
            near,
            b.cters@[ti].base_attr.hp < spec_min_other_hp(b.cters@, target_cter_id),
            damage,
        ),
    )
}

/// Clamping of a damage or reduction total into the stored range.
pub open spec fn clamp_damage(v: int) -> int {
    if v < 0 {
        0
    } else if v > HP_CAP as int {
        HP_CAP as int
    } else {
        v
    }
}

impl BattleData {
    /// The target's effective defence against an attack: its base defence
    /// plus everything its damage-reduction buffs grant, with melee-only
    /// buffs counted only against an adjacent attacker and the lowest-hp
    /// bonus counted only while the target has the least hit points.
    /// Falls back to the bare defence when the catalog lacks the ring
    /// template, and to zero for an unknown target.
    #[verifier::rlimit(100)]
    #[verifier::spinoff_prover]
    pub fn calc_reduce_damage(
        &self,
        temps: &TemplatesMgr,
        from_cter_id: u32,
        target_cter_id: u32,
        damage: i32,
    ) -> (r: i32)
        requires
            battle_wf(*self),
            0 <= damage <= HP_CAP as int,
        ensures
            match spec_cter_idx(*self, target_cter_id) {
                Some(ti) => {
                    let target = self.cters@[ti];
                    if spec_find_scope(
                        temps.skill_scope_temp_mgr.temps@,
                        TRIGGER_SCOPE_NEAR_TEMP_ID,
                    ) is None {
                        r == target.base_attr.defence
                    } else {
                        r == spec_reduce_value(
                            *self,
                            ti,
                            spec_attack_is_near(*self, *temps, from_cter_id, target_cter_id),
                            target_cter_id,
                            damage as int,
                        )
                    }
                },
                None => r == 0,
            },
    {
        let ti = match self.find_cter_idx(target_cter_id) {
            Some(i) => i,
            None => {
                return 0;
            },
        };
        if temps.skill_scope_temp_mgr().get_temp(&TRIGGER_SCOPE_NEAR_TEMP_ID).is_none() {
            return self.cters[ti].base_attr.defence;
        }
        proof {
            reveal(crate::battle_cter::cter_wf);
        }
        let target_index = self.cters[ti].get_map_cell_index();
        let center: isize = if target_index > 0x10000 {
            0x10000
        } else {
            target_index as isize
        };
        let (_, user_v) = self.cal_scope(
            temps,
            target_cter_id,
            center,
            TargetType::NoneTarget,
            None,
            None,
        );
        let attack_is_near = crate::battle_player::contains_u32(&user_v, from_cter_id);
        proof {
            reveal(crate::scope::spec_cal_scope_ok);
            reveal(crate::scope::spec_scope_match);
            assert(attack_is_near == spec_attack_is_near(
                *self,
                *temps,
                from_cter_id,
                target_cter_id,
            ));
        }
        let is_min = self.is_min_hp(target_cter_id);
        let mut value: i64 = self.cters[ti].base_attr.defence as i64;
        let ghost buffs = self.cters@[ti as int].battle_buffs.buffs@;
        let mut k: usize = 0;
        let buffs_len = self.cters[ti].battle_buffs.buffs.len();
        while k < buffs_len
            invariant
                0 <= k <= buffs.len(),
                buffs_len == buffs.len(),
                ti < self.cters@.len(),
                spec_cter_idx(*self, target_cter_id) == Some(ti as int),
                spec_find_scope(
                    temps.skill_scope_temp_mgr.temps@,
                    TRIGGER_SCOPE_NEAR_TEMP_ID,
                ) is Some,
                buffs == self.cters@[ti as int].battle_buffs.buffs@,
                value == self.cters@[ti as int].base_attr.defence + spec_sub_damage_total(
                    buffs.subrange(0, k as int),
                    attack_is_near,
                    is_min,
                    damage as int,
                ),
                self.cters@[ti as int].base_attr.defence >= 0,
                0 <= damage <= HP_CAP as int,
                is_min == (self.cters@[ti as int].base_attr.hp < spec_min_other_hp(
                    self.cters@,
                    target_cter_id,
                )),
                attack_is_near == spec_attack_is_near(
                    *self,
                    *temps,
                    from_cter_id,
                    target_cter_id,
                ),
                forall|j: int|
                    0 <= j < buffs.len() ==> crate::battle_buff::buff_wf(#[trigger] buffs[j]),
                value <= HP_CAP as i64,
                value >= 0,
            decreases buffs.len() - k,
        {
            proof {
                let next = buffs.subrange(0, k as int + 1);
                assert(next.drop_last() =~= buffs.subrange(0, k as int));
            }
            let b = &self.cters[ti].battle_buffs.buffs[k];
            let contribution: i64 = if !crate::battle_enum::is_sub_damage_buff(b.function_id) {
                0
            } else if (b.function_id == NEAR_SUB_ATTACK_DAMAGE || b.function_id
                == NEAR_ATTACKED_DAMAGE_ZERO) && !attack_is_near {
                0
            } else if b.function_id == NEAR_ATTACKED_DAMAGE_ZERO {
                damage as i64
            } else if b.function_id == ATTACKED_SUB_DAMAGE && is_min {
                b.buff_temp.par2 as i64
            } else {
                b.buff_temp.par1 as i64
            };
            proof {
                assert(0 <= contribution <= 0x200000000i64);
            }
            value = value + contribution;
            if value > HP_CAP as i64 {
                // reductions beyond the stored range all negate the hit
                proof {
                    lemma_sub_damage_total_grows(buffs, attack_is_near, is_min, damage as int, k as int + 1);
                    assert(HP_CAP as int == spec_reduce_value(
                        *self,
                        ti as int,
                        attack_is_near,
                        target_cter_id,
                        damage as int,
                    ));
                }
                return HP_CAP;
            }
            k = k + 1;
        }
        proof {
            assert(buffs.subrange(0, buffs.len() as int) =~= buffs);
            assert(value == spec_reduce_value(
                *self,
                ti as int,
                attack_is_near,
                target_cter_id,
                damage as int,
            ));
        }
        value as i32
    }
}

/// Reduction totals never shrink as more buffs are counted.
pub proof fn lemma_sub_damage_total_grows(
    buffs: Seq<Buff>,
    near: bool,
    is_min_hp: bool,
    damage: int,
    n: int,
)
    requires
        0 <= n <= buffs.len(),
        damage >= 0,
    ensures
        spec_sub_damage_total(buffs.subrange(0, n), near, is_min_hp, damage)
            <= spec_sub_damage_total(buffs, near, is_min_hp, damage),
        spec_sub_damage_total(buffs, near, is_min_hp, damage) >= 0,
    decreases buffs.len() - n,
{
    if n < buffs.len() {
        lemma_sub_damage_total_grows(buffs, near, is_min_hp, damage, n + 1);
        let shorter = buffs.subrange(0, n);
        let longer = buffs.subrange(0, n + 1);
        assert(longer.drop_last() =~= shorter);
        lemma_sub_damage_total_nonneg(shorter, near, is_min_hp, damage);
    } else {
        assert(buffs.subrange(0, n) =~= buffs);
        lemma_sub_damage_total_nonneg(buffs, near, is_min_hp, damage);
    }
}

/// A reduction total is never negative.
pub proof fn lemma_sub_damage_total_nonneg(
    buffs: Seq<Buff>,
    near: bool,
    is_min_hp: bool,
    damage: int,
)
    requires
        damage >= 0,
    ensures
        spec_sub_damage_total(buffs, near, is_min_hp, damage) >= 0,
    decreases buffs.len(),
{
    if buffs.len() > 0 {
        lemma_sub_damage_total_nonneg(buffs.drop_last(), near, is_min_hp, damage);
    }
}

/// How many living minions of this template the list still holds,
/// besides the named character.
pub open spec fn spec_other_minon_count(
    s: Seq<BattleCharacter>,
    cter_temp_id: u32,
    except_cter_id: u32,
) -> int
    decreases s.len(),
{
    if s.len() == 0 {
        0
    } else {
        spec_other_minon_count(s.drop_last(), cter_temp_id, except_cter_id) + {
            let c = s.last();
            if c.owner is Some && c.base_attr.cter_temp_id == cter_temp_id && c.state
                != BattleCterState::Die && c.base_attr.cter_id != except_cter_id {
                1int
            } else {
                0int
            }
        }
    }
}

/// The skill the refresh buff selects for the current phase: its first
/// parameter by day, its second by night.
pub open spec fn spec_crow_skill(rb: Buff, dn: DayNight) -> u32 {
    match dn {
        DayNight::Day => rb.buff_temp.par1,
        DayNight::Night => rb.buff_temp.par2,
    }
}

/// When the fall of this character owes the all-minions-dead reward: the
/// character is a minion of another, present owner; some summoning buff
/// of the owner names the minion's template as its kind; no other living
/// minion of that kind remains; the owner carries the refresh buff; and
/// the owner knows the skill that buff selects for the current phase.
pub open spec fn spec_crow_refresh_due(b: BattleData, cter_id: u32) -> bool {
    match spec_cter_idx(b, cter_id) {
        Some(ci) => match b.cters@[ci].owner {
            Some((oc, ft)) => oc != cter_id && (match spec_cter_idx(b, oc) {
                Some(oi) => {
                    let temp_id = b.cters@[ci].base_attr.cter_temp_id;
                    &&& (exists|k: int|
                        0 <= k < b.cters@[oi].battle_buffs.buffs@.len() && (
                        #[trigger] b.cters@[oi].battle_buffs.buffs@[k]).function_id == SUMMON_CROW
                            && b.cters@[oi].battle_buffs.buffs@[k].buff_temp.par1 == temp_id)
                    &&& spec_other_minon_count(b.cters@, temp_id, cter_id) == 0
                    &&& (match spec_find_function(
                        b.cters@[oi].battle_buffs.buffs@,
                        ALL_CROW_DIE_REFRESH_SKILL_CD,
                    ) {
                        Some(rb) => {
                            let sid = spec_crow_skill(rb, b.day_night);
                            exists|si: int|
                                0 <= si < b.cters@[oi].skills@.len() && (
                                #[trigger] b.cters@[oi].skills@[si]).id == sid
                        },
                        None => false,
                    })
                },
                None => false,
            }),
            None => false,
        },
        None => false,
    }
}

/// The owner, if it is still in the arena, holds a skill with this id
/// whose cooldown is spent down to nothing.
pub open spec fn spec_owner_skill_cleared(b: BattleData, oc: u32, sid: u32) -> bool {
    match spec_cter_idx(b, oc) {
        Some(oj) => exists|sj: int|
            0 <= sj < b.cters@[oj].skills@.len() && (#[trigger] b.cters@[oj].skills@[sj]).id
                == sid && b.cters@[oj].skills@[sj].cd_times == 0,
        None => true,
    }
}

/// A step that keeps every character's id and touches skills at most in
/// their consumed flags keeps the owner's cleared skill cleared.
proof fn lemma_cleared_after_skills_touch(a: BattleData, b: BattleData, oc: u32, sid: u32)
    requires
        b.cters@.len() == a.cters@.len(),
        forall|i: int|
            0 <= i < b.cters@.len() ==> (#[trigger] b.cters@[i]).base_attr.cter_id == a.cters@[
                i
            ].base_attr.cter_id && b.cters@[i].skills@.len() == a.cters@[i].skills@.len(),
        forall|i: int, k: int|
            0 <= i < b.cters@.len() && 0 <= k < b.cters@[i].skills@.len()
                ==> crate::battle_skill::spec_same_but_active(
                a.cters@[i].skills@[k],
                #[trigger] b.cters@[i].skills@[k],
            ),
        spec_owner_skill_cleared(a, oc, sid),
    ensures
        spec_owner_skill_cleared(b, oc, sid),
{
    crate::battle::lemma_cter_idx_same_ids(a.cters@, b.cters@, oc);
    match crate::battle::spec_first_cter_idx(b.cters@, oc) {
        Some(oj) => {
            crate::battle::lemma_first_cter_idx_in_range(b.cters@, oc);
            let sj = choose|sj: int|
                0 <= sj < a.cters@[oj].skills@.len() && (#[trigger] a.cters@[oj].skills@[sj]).id
                    == sid && a.cters@[oj].skills@[sj].cd_times == 0;
            assert(b.cters@[oj].skills@[sj].id == sid && b.cters@[oj].skills@[sj].cd_times == 0);
        },
        None => {},
    }
}

/// Removing one arena entry keeps the owner's cleared skill cleared: the
/// owner either leaves with it or keeps its value.
proof fn lemma_cleared_after_removal(a: BattleData, b: BattleData, ri: int, oc: u32, sid: u32)
    requires
        battle_wf(a),
        0 <= ri < a.cters@.len(),
        b.cters@ == a.cters@.remove(ri),
        spec_owner_skill_cleared(a, oc, sid),
    ensures
        spec_owner_skill_cleared(b, oc, sid),
{
    match crate::battle::spec_first_cter_idx(b.cters@, oc) {
        Some(oj) => {
            crate::battle::lemma_first_cter_idx_in_range(b.cters@, oc);
            let aj = if oj < ri {
                oj
            } else {
                oj + 1
            };
            assert(b.cters@[oj] == a.cters@[aj]);
            crate::battle::lemma_cter_idx_unique(a.cters@, oc, aj);
        },
        None => {},
    }
}

/// Division as the machine divides: toward zero.
pub open spec fn spec_div_trunc(a: int, b: int) -> int {
    if a >= 0 {
        a / b
    } else {
        -((-a) / b)
    }
}

/// The scores the award table grants to `n` consecutive ranks counted
/// up from `rank`; ranks beyond the table's reach grant nothing.
pub open spec fn spec_rank_score_sum(
    rows: Seq<crate::templates::SummaryAwardTemp>,
    rank: int,
    n: int,
) -> int
    decreases n,
{
    if n <= 0 {
        0
    } else {
        (if rank > 255 {
            0int
        } else {
            match crate::templates::spec_find_award(rows, rank as u32) {
                Some(t) => t.score as int,
                None => 0int,
            }
        }) + spec_rank_score_sum(rows, rank + 1, n - 1)
    }
}

/// Sum of the recorded league tiers of everyone but the named user,
/// tiers below zero counting as zero.
pub open spec fn spec_league_sum(m: Seq<(u32, i32)>, except: u32) -> int
    decreases m.len(),
{
    if m.len() == 0 {
        0
    } else {
        spec_league_sum(m.drop_last(), except) + (if m.last().0 == except || m.last().1 < 0 {
            0int
        } else {
            m.last().1 as int
        })
    }
}

/// How many league tiers the average runs over: everyone but the named
/// user.
pub open spec fn spec_league_cnt(m: Seq<(u32, i32)>, except: u32) -> int
    decreases m.len(),
{
    if m.len() == 0 {
        0
    } else {
        spec_league_cnt(m.drop_last(), except) + (if m.last().0 == except {
            0int
        } else {
            1int
        })
    }
}

/// The average recorded league tier of everyone but the named user;
/// zero when nobody else is recorded.
pub open spec fn spec_league_avg(m: Seq<(u32, i32)>, except: u32) -> int {
    if spec_league_cnt(m, except) > 0 {
        spec_league_sum(m, except) / spec_league_cnt(m, except)
    } else {
        0
    }
}

/// The volatility adjustment: ten points for every tier the fallen
/// player sits below the others' average, and nothing from above it.
pub open spec fn spec_unstable(avg: int, self_league: int) -> int {
    if avg > self_league {
        (avg - self_league) * 10
    } else {
        0
    }
}

/// A score kept inside the engine's stored range.
pub open spec fn clamp_score(v: int) -> int {
    if v < -(GOLD_CAP as int) {
        -(GOLD_CAP as int)
    } else if v > GOLD_CAP as int {
        GOLD_CAP as int
    } else {
        v
    }
}

/// Where a settled grade moves: up for the battle's winner, capped by
/// the configured ceiling; down for everyone else, floored at one.
pub open spec fn spec_moved_grade(g: int, rank: u8, max_grade: int) -> int {
    if rank == 0 {
        if g > 1 {
            max_grade
        } else {
            g + 1
        }
    } else {
        if g <= 1 {
            1
        } else {
            g - 1
        }
    }
}

/// A pending summary line as settlement leaves it.  Outside match rooms
/// the line is only moved, untouched.  In a match room its reward is the
/// award-table base score of its rank, averaged over the lines settled
/// together, plus the league-volatility adjustment, kept in range; and
/// its grade moves one step.
pub open spec fn spec_scored(
    sp: SummaryUser,
    rows: Seq<crate::templates::SummaryAwardTemp>,
    is_match: bool,
    count: int,
    avg_league: int,
    self_league: int,
    max_grade: int,
) -> SummaryUser {
    if !is_match {
        sp
    } else {
        let base = spec_div_trunc(
            spec_rank_score_sum(rows, sp.summary_rank as int + 1, count),
            count,
        );
        SummaryUser {
            reward_score: clamp_score(base + spec_unstable(avg_league, self_league)) as i32,
            grade: spec_moved_grade(sp.grade as int, sp.summary_rank, max_grade) as i32,
            ..sp
        }
    }
}

/// What settlement flushes out of the pending summary lines: last
/// first, each settled as `spec_scored` says.
pub open spec fn spec_settled(
    pending: Seq<SummaryUser>,
    rows: Seq<crate::templates::SummaryAwardTemp>,
    is_match: bool,
    count: int,
    avg_league: int,
    self_league: int,
    max_grade: int,
) -> Seq<SummaryUser>
    decreases pending.len(),
{
    if pending.len() == 0 {
        Seq::empty()
    } else {
        seq![
            spec_scored(pending.last(), rows, is_match, count, avg_league, self_league, max_grade),
        ] + spec_settled(
            pending.drop_last(),
            rows,
            is_match,
            count,
            avg_league,
            self_league,
            max_grade,
        )
    }
}

/// Ranks beyond the table's reach contribute nothing, however many.
proof fn lemma_rank_score_sum_high(
    rows: Seq<crate::templates::SummaryAwardTemp>,
    rank: int,
    n: int,
)
    requires
        rank > 255,
    ensures
        spec_rank_score_sum(rows, rank, n) == 0,
    decreases n,
{
    if n > 0 {
        lemma_rank_score_sum_high(rows, rank + 1, n - 1);
    }
}

/// One more rank extends the sum by that rank's contribution.
proof fn lemma_rank_score_sum_step(
    rows: Seq<crate::templates::SummaryAwardTemp>,
    rank: int,
    t: int,
)
    requires
        0 <= t,
        0 <= rank,
    ensures
        spec_rank_score_sum(rows, rank, t + 1) == spec_rank_score_sum(rows, rank, t) + (if rank
            + t > 255 {
            0int
        } else {
            match crate::templates::spec_find_award(rows, (rank + t) as u32) {
                Some(tmp) => tmp.score as int,
                None => 0int,
            }
        }),
    decreases t,
{
    if t > 0 {
        lemma_rank_score_sum_step(rows, rank + 1, t - 1);
        assert(spec_rank_score_sum(rows, rank, t + 1) == (if rank > 255 {
            0int
        } else {
            match crate::templates::spec_find_award(rows, rank as u32) {
                Some(tmp) => tmp.score as int,
                None => 0int,
            }
        }) + spec_rank_score_sum(rows, rank + 1, t));
    } else {
        assert(spec_rank_score_sum(rows, rank + 1, 0) == 0);
        assert(spec_rank_score_sum(rows, rank, 0) == 0);
        assert(spec_rank_score_sum(rows, rank, 1) == (if rank > 255 {
            0int
        } else {
            match crate::templates::spec_find_award(rows, rank as u32) {
                Some(tmp) => tmp.score as int,
                None => 0int,
            }
        }) + spec_rank_score_sum(rows, rank + 1, 0));
    }
}

/// A sum over many ranks splits at any point.
proof fn lemma_rank_score_sum_split(
    rows: Seq<crate::templates::SummaryAwardTemp>,
    rank: int,
    k: int,
    n: int,
)
    requires
        0 <= k <= n,
    ensures
        spec_rank_score_sum(rows, rank, n) == spec_rank_score_sum(rows, rank, k)
            + spec_rank_score_sum(rows, rank + k, n - k),
    decreases k,
{
    if k > 0 {
        lemma_rank_score_sum_split(rows, rank + 1, k - 1, n - 1);
    }
}

/// Every rank's contribution lies within the stored score range.
proof fn lemma_rank_score_sum_bound(
    rows: Seq<crate::templates::SummaryAwardTemp>,
    rank: int,
    n: int,
)
    requires
        0 <= n,
    ensures
        -n * 0x80000000 <= spec_rank_score_sum(rows, rank, n) <= n * 0x80000000,
    decreases n,
{
    if n > 0 {
        lemma_rank_score_sum_bound(rows, rank + 1, n - 1);
        assert(-(n - 1) * 0x80000000 - 0x80000000 == -n * 0x80000000) by (nonlinear_arith);
        assert((n - 1) * 0x80000000 + 0x80000000 == n * 0x80000000) by (nonlinear_arith);
    }
}

/// The clamped effective defence this attack meets, exactly as
/// `calc_reduce_damage` reports it.
pub open spec fn spec_calc_reduce(
    b: BattleData,
    temps: TemplatesMgr,
    from_cter_id: u32,
    target_cter_id: u32,
    damage: int,
) -> int {
    match spec_cter_idx(b, target_cter_id) {
        Some(ti) => if spec_find_scope(
            temps.skill_scope_temp_mgr.temps@,
            TRIGGER_SCOPE_NEAR_TEMP_ID,
        ) is None {
            b.cters@[ti].base_attr.defence as int
        } else {
            spec_reduce_value(
                b,
                ti,
                spec_attack_is_near(b, temps, from_cter_id, target_cter_id),
                target_cter_id,
                damage,
            )
        },
        None => 0,
    }
}

/// The amount one hit deals before the petrify multiplier: an attack is
/// the attacker's attack value minus the target's effective defence,
/// clamped at zero, and nothing at all under a guard buff; skill damage
/// is its fixed amount, floored at zero.
pub open spec fn spec_base_damage(
    b: BattleData,
    temps: TemplatesMgr,
    from_cter_id: u32,
    target_cter_id: u32,
    dt: DamageType,
) -> int {
    match dt {
        DamageType::Attack(_) => {
            let fi = spec_cter_idx(b, from_cter_id).unwrap();
            let ti = spec_cter_idx(b, target_cter_id).unwrap();
            let attack = b.cters@[fi].base_attr.attack as int;
            let guarded = match spec_find_function(
                b.cters@[ti].battle_buffs.buffs@,
                GD_ATTACK_DAMAGE,
            ) {
                Some(g) => g.id != 0,
                None => false,
            };
            if guarded {
                0
            } else if attack - spec_calc_reduce(b, temps, from_cter_id, target_cter_id, attack)
                < 0 {
                0
            } else {
                attack - spec_calc_reduce(b, temps, from_cter_id, target_cter_id, attack)
            }
        },
        DamageType::Skill(x) => if x < 0 {
            0
        } else {
            x as int
        },
    }
}

/// The amount one hit finally deals: the base amount clamped into the
/// stored range and scaled by the target's petrify buff, if one is on.
pub open spec fn spec_deduct_amount(
    b: BattleData,
    temps: TemplatesMgr,
    from_cter_id: u32,
    target_cter_id: u32,
    dt: DamageType,
) -> int {
    let ti = spec_cter_idx(b, target_cter_id).unwrap();
    let base = clamp_damage(spec_base_damage(b, temps, from_cter_id, target_cter_id, dt));
    match spec_find_function(b.cters@[ti].battle_buffs.buffs@, STONE_BUFF) {
        Some(sb) => clamp_damage(
            base * (if sb.buff_temp.par1 > 0x40000000u32 {
                0x40000000int
            } else {
                sb.buff_temp.par1 as int
            }),
        ),
        None => base,
    }
}

impl BattleData {
    /// Applies one hit of damage to a living target and returns the
    /// amount dealt, which is never negative.
    ///
    /// An attack recomputes its amount from the attacker's attack value
    /// and the target's effective defence, clamped at zero; a guard buff
    /// negates it entirely and is consumed.  Skill damage uses its fixed
    /// amount.  A petrify buff multiplies either kind.  The target's hit
    /// points drop by the amount, and a target that reaches zero runs the
    /// death cascade; the major character's death also runs the player
    /// death cascade.
    #[verifier::rlimit(100)]
    #[verifier::spinoff_prover]
    pub fn deduct_hp(
        &mut self,
        temps: &TemplatesMgr,
        from_cter_id: u32,
        target_cter_id: u32,
        dt: DamageType,
        target_pt: &mut TargetPt,
        is_last_one: bool,
    ) -> (r: Result<(u32, Option<TargetPt>), BattleError>)
        requires
            battle_wf(*old(self)),
        ensures
            battle_wf(*final(self)),
            r is Ok <==> (match spec_cter_idx(*old(self), target_cter_id) {
                Some(ti) => old(self).cters@[ti].state != BattleCterState::Die && (dt matches
                DamageType::Attack(_) ==> spec_cter_idx(*old(self), from_cter_id) is Some),
                None => false,
            }),
            match r {
                Ok((amount, cascade_pt)) => {
                    let ti = spec_cter_idx(*old(self), target_cter_id).unwrap();
                    let amt = spec_deduct_amount(
                        *old(self),
                        *temps,
                        from_cter_id,
                        target_cter_id,
                        dt,
                    );
                    let newhp = clamp_hp(old(self).cters@[ti].base_attr.hp - amt);
                    &&& amount as int == amt
                    &&& 0 <= amt <= HP_CAP
                    &&& final(target_pt).effects@.len() == old(target_pt).effects@.len() + 1
                    &&& (forall|k: int|
                        0 <= k < old(target_pt).effects@.len() ==> final(target_pt).effects@[k]
                            == old(target_pt).effects@[k])
                    &&& final(target_pt).effects@.last().effect_type == (match dt {
                        DamageType::Attack(_) => EffectType::AttackDamage.spec_into_u32(),
                        DamageType::Skill(_) => EffectType::SkillDamage.spec_into_u32(),
                    })
                    &&& final(target_pt).effects@.last().effect_value as int == amt
                    &&& (newhp > 0 ==> spec_cter_idx(*final(self), target_cter_id) == Some(ti)
                        && final(self).cters@[ti].base_attr.hp == newhp
                        && final(self).cters@[ti].state != BattleCterState::Die)
                    &&& (newhp == 0 ==> spec_cter_idx(*final(self), target_cter_id) is None)
                    &&& (newhp > 0 ==> cascade_pt is None)
                    &&& (cascade_pt matches Some(cpt) ==> cpt.passive_effects@.len() == 1
                        && cpt.passive_effects@[0].field_type
                        == EffectType::RefreshSkillCd.spec_into_u32())
                },
                Err(e) => *final(self) == *old(self) && *final(target_pt) == *old(target_pt) && (
                match spec_cter_idx(*old(self), target_cter_id) {
                    None => e == BattleError::NotFound,
                    Some(ti) => if old(self).cters@[ti].state == BattleCterState::Die {
                        e == BattleError::StateViolation
                    } else {
                        e == BattleError::NotFound && (dt matches DamageType::Attack(_))
                            && spec_cter_idx(*old(self), from_cter_id) is None
                    },
                }),
            },
    {
        let ti = match self.find_cter_idx(target_cter_id) {
            Some(i) => i,
            None => {
                return Err(BattleError::NotFound);
            },
        };
        if self.cters[ti].state == BattleCterState::Die {
            return Err(BattleError::StateViolation);
        }
        proof {
            reveal(crate::battle_cter::cter_wf);
        }
        // the petrify multiplier is read before anything changes
        let stone_par: Option<u32> = match self.cters[ti].get_stone_buff() {
            Some(b) => Some(b.buff_temp.par1),
            None => None,
        };
        let from_user_id = match self.get_user_id(from_cter_id) {
            Some(u) => u,
            None => 0,
        };
        let mut res: i64;
        match dt {
            DamageType::Attack(_) => {
                let fi = match self.find_cter_idx(from_cter_id) {
                    Some(i) => i,
                    None => {
                        return Err(BattleError::NotFound);
                    },
                };
                let attack_damage = self.cters[fi].calc_damage();
                let reduce = self.calc_reduce_damage(
                    temps,
                    from_cter_id,
                    target_cter_id,
                    attack_damage,
                );
                res = attack_damage as i64 - reduce as i64;
                if res < 0 {
                    res = 0;
                }
                let (gd_buff_id, gd_is_remove) = self.cters[ti].trigger_attack_damge_gd();
                if gd_buff_id > 0 {
                    let mut te_pt = crate::proto::TriggerEffectPt::new();
                    te_pt.buff_id = gd_buff_id;
                    target_pt.passive_effects.push(te_pt);
                    if gd_is_remove {
                        let lost = self.consume_buff(
                            temps,
                            gd_buff_id,
                            Some(target_cter_id),
                            None,
                            false,
                        );
                        if let Some(lost) = lost {
                            target_pt.lost_buffs.push(lost);
                        }
                    }
                    res = 0;
                }
            },
            DamageType::Skill(skill_damage) => {
                res = if skill_damage < 0 {
                    0
                } else {
                    skill_damage as i64
                };
            },
        }
        proof {
            crate::battle::lemma_cter_idx_same_ids(
                old(self).cters@,
                self.cters@,
                target_cter_id,
            );
            assert(clamp_damage(
                spec_base_damage(*old(self), *temps, from_cter_id, target_cter_id, dt),
            ) == if res > HP_CAP as i64 {
                HP_CAP as int
            } else {
                res as int
            });
        }
        if res > HP_CAP as i64 {
            res = HP_CAP as i64;
        }
        if res < 0 {
            res = 0;
        }
        if let Some(par) = stone_par {
            let par_c: i64 = if par > 0x40000000u32 {
                0x40000000i64
            } else {
                par as i64
            };
            proof {
                assert(res * par_c <= 0x1000000000000000i64) by (nonlinear_arith)
                    requires
                        0 <= res <= HP_CAP as i64,
                        0 <= par_c <= 0x40000000i64,
                ;
            }
            res = res * par_c;
            if res > HP_CAP as i64 {
                res = HP_CAP as i64;
            }
        }
        let amount: i32 = res as i32;
        proof {
            assert(amount as int == spec_deduct_amount(
                *old(self),
                *temps,
                from_cter_id,
                target_cter_id,
                dt,
            ));
        }
        let ghost pre = *self;
        let is_die;
        let target_user_id;
        let is_major;
        {
            proof {
                reveal(crate::battle_cter::cter_wf);
            }
            let target = &mut self.cters[ti];
            is_die = target.add_hp(if amount > 0 {
                -amount
            } else {
                0
            });
            target_user_id = target.base_attr.user_id;
            is_major = target.is_major;
        }
        proof {
            crate::battle_helper::lemma_wf_after_cter_update(pre, *self, ti as int);
            crate::battle::lemma_cter_idx_same_ids(old(self).cters@, self.cters@, target_cter_id);
        }
        let mut ep = EffectPt::new();
        ep.effect_type = match dt {
            DamageType::Attack(_) => EffectType::AttackDamage.into_u32(),
            DamageType::Skill(_) => EffectType::SkillDamage.into_u32(),
        };
        ep.effect_value = amount as u32;
        target_pt.effects.push(ep);
        let mut cascade_pt: Option<TargetPt> = None;
        if is_die {
            let ghost before_cascade = *self;
            cascade_pt = self.after_cter_died_trigger(target_cter_id);
            proof {
                crate::battle::lemma_cter_idx_same_ids(
                    old(self).cters@,
                    before_cascade.cters@,
                    target_cter_id,
                );
            }
            if is_major {
                self.after_player_died_trigger(temps, from_user_id, target_user_id, is_last_one);
            }
        }
        Ok((amount as u32, cascade_pt))
    }

    /// How many living minions of this template the battle still holds,
    /// besides the named character.
    pub fn count_other_minons(&self, cter_temp_id: u32, except_cter_id: u32) -> (r: usize)
        ensures
            r == spec_other_minon_count(self.cters@, cter_temp_id, except_cter_id),
    {
        let mut count: usize = 0;
        let mut i: usize = 0;
        while i < self.cters.len()
            invariant
                0 <= i <= self.cters@.len(),
                count == spec_other_minon_count(
                    self.cters@.subrange(0, i as int),
                    cter_temp_id,
                    except_cter_id,
                ),
                count <= i,
            decreases self.cters@.len() - i,
        {
            proof {
                let next = self.cters@.subrange(0, i as int + 1);
                assert(next.drop_last() =~= self.cters@.subrange(0, i as int));
            }
            let c = &self.cters[i];
            if c.owner.is_some() && c.base_attr.cter_temp_id == cter_temp_id && c.state
                != BattleCterState::Die && c.base_attr.cter_id != except_cter_id {
                count = count + 1;
            }
            i = i + 1;
        }
        proof {
            assert(self.cters@.subrange(0, self.cters@.len() as int) =~= self.cters@);
        }
        count
    }

    /// Whether the character at this arena position holds a summoning
    /// buff whose minion kind is the given template.
    fn has_crow_buff_for(&self, oi: usize, cter_temp_id: u32) -> (r: bool)
        requires
            oi < self.cters@.len(),
        ensures
            r == (exists|k: int|
                0 <= k < self.cters@[oi as int].battle_buffs.buffs@.len() && (
                #[trigger] self.cters@[oi as int].battle_buffs.buffs@[k]).function_id
                    == SUMMON_CROW && self.cters@[oi as int].battle_buffs.buffs@[k].buff_temp.par1
                    == cter_temp_id),
    {
        let buffs_len = self.cters[oi].battle_buffs.buffs.len();
        let mut k: usize = 0;
        while k < buffs_len
            invariant
                oi < self.cters@.len(),
                buffs_len == self.cters@[oi as int].battle_buffs.buffs@.len(),
                0 <= k <= buffs_len,
                forall|j: int|
                    0 <= j < k ==> !((#[trigger] self.cters@[oi as int].battle_buffs.buffs@[
                        j
                    ]).function_id == SUMMON_CROW && self.cters@[
                        oi as int
                    ].battle_buffs.buffs@[j].buff_temp.par1 == cter_temp_id),
            decreases buffs_len - k,
        {
            let b = &self.cters[oi].battle_buffs.buffs[k];
            if b.function_id == SUMMON_CROW && b.buff_temp.par1 == cter_temp_id {
                return true;
            }
            k = k + 1;
        }
        false
    }

    /// The character death cascade: exactly one execution per character.
    ///
    /// Clears the fallen character's board occupancy, detaches it from
    /// its owner's minion set, hands the acting slot back to the owning
    /// player's major character, and takes the character out of the
    /// arena, so that a second invocation on the same id finds nothing
    /// and changes nothing.
    #[verifier::rlimit(100)]
    #[verifier::spinoff_prover]
    pub fn after_cter_died_trigger(&mut self, cter_id: u32) -> (r: Option<TargetPt>)
        requires
            battle_wf(*old(self)),
        ensures
            battle_wf(*final(self)),
            spec_cter_idx(*old(self), cter_id) is None ==> *final(self) == *old(self)
                && r is None,
            spec_cter_idx(*old(self), cter_id) is Some ==> spec_cter_idx(
                *final(self),
                cter_id,
            ) is None && (forall|i: int|
                0 <= i < final(self).tile_map.map_cells@.len()
                    ==> (#[trigger] final(self).tile_map.map_cells@[i]).cter_id != cter_id
                    || cter_id == 0),
            // the acting slot falls back to the owning player's major
            // character when the fallen character was acting
            match spec_cter_idx(*old(self), cter_id) {
                Some(ci) => match spec_player_idx(
                    *old(self),
                    old(self).cters@[ci].base_attr.user_id,
                ) {
                    Some(p) => final(self).battle_player@.len() == old(
                        self,
                    ).battle_player@.len() && final(self).battle_player@[p].current_cter == (
                    if old(self).battle_player@[p].current_cter == cter_id {
                        old(self).battle_player@[p].major_cter
                    } else {
                        old(self).battle_player@[p].current_cter
                    }),
                    None => true,
                },
                None => true,
            },
            // the all-minions-dead reward fires exactly when it is due
            r is Some <==> spec_crow_refresh_due(*old(self), cter_id),
            // and it names the phase-selected skill of the owner, which
            // is left with no cooldown, in exactly one record
            r matches Some(pt) ==> (match spec_cter_idx(*old(self), cter_id) {
                Some(ci) => match old(self).cters@[ci].owner {
                    Some((oc, ft)) => match spec_cter_idx(*old(self), oc) {
                        Some(oi) => match spec_find_function(
                            old(self).cters@[oi].battle_buffs.buffs@,
                            ALL_CROW_DIE_REFRESH_SKILL_CD,
                        ) {
                            Some(rb) => {
                                let sid = spec_crow_skill(rb, old(self).day_night);
                                &&& pt.passive_effects@.len() == 1
                                &&& pt.passive_effects@[0].field_type
                                    == EffectType::RefreshSkillCd.spec_into_u32()
                                &&& pt.passive_effects@[0].buff_id == rb.id
                                &&& pt.passive_effects@[0].value == sid
                                &&& pt.target_value@ == seq![
                                    crate::battle_cter::spec_map_cell_index(
                                        old(self).cters@[oi],
                                    ) as u32,
                                ]
                                &&& spec_owner_skill_cleared(*final(self), oc, sid)
                            },
                            None => false,
                        },
                        None => false,
                    },
                    None => false,
                },
                None => false,
            }),
    {
        let ci = match self.find_cter_idx(cter_id) {
            Some(i) => i,
            None => {
                return None;
            },
        };
        let owner = self.cters[ci].owner;
        let user_id = self.cters[ci].base_attr.user_id;
        let dying_temp_id = self.cters[ci].base_attr.cter_temp_id;
        let mut result: Option<TargetPt> = None;
        let ghost mut g_oc: u32 = 0;
        let ghost mut g_sid: u32 = 0;
        // clear the fallen character's board occupancy
        let ghost pre = *self;
        let mut k: usize = 0;
        while k < self.tile_map.map_cells.len()
            invariant
                battle_wf(*self),
                0 <= k <= self.tile_map.map_cells@.len(),
                self.tile_map.map_cells@.len() == pre.tile_map.map_cells@.len(),
                forall|i: int|
                    0 <= i < k ==> (#[trigger] self.tile_map.map_cells@[i]).cter_id != cter_id
                        || cter_id == 0,
                self.cters@ == pre.cters@,
                self.battle_player@ == pre.battle_player@,
                crate::battle_helper::spec_same_battle_but_board_and_people(pre, *self),
            decreases self.tile_map.map_cells@.len() - k,
        {
            let ghost mid = *self;
            if self.tile_map.map_cells[k].cter_id == cter_id && cter_id != 0 {
                let cell = &mut self.tile_map.map_cells[k];
                cell.cter_id = 0;
                proof {
                    crate::battle_helper::lemma_wf_after_cell_occupancy(mid, *self, k as int);
                }
            }
            k = k + 1;
        }
        // the all-minions-dead reward: when the fallen character was the
        // last living minion of a kind its owner summons, and the owner
        // carries the refresh buff, the phase-selected skill's cooldown
        // is cleared and announced exactly once
        if let Some((owner_cter_id, _)) = owner {
            let oi0 = self.find_cter_idx(owner_cter_id);
            if let Some(oi) = oi0 {
                if owner_cter_id != cter_id && self.has_crow_buff_for(oi, dying_temp_id)
                    && self.count_other_minons(dying_temp_id, cter_id) == 0 {
                    let refresh = self.cters[oi].battle_buffs.find_buff_by_function(
                        ALL_CROW_DIE_REFRESH_SKILL_CD,
                    );
                    match refresh {
                        Some(bi) => {
                            proof {
                                crate::battle_cter::lemma_find_function_finds(
                                    self.cters@[oi as int].battle_buffs.buffs@,
                                    ALL_CROW_DIE_REFRESH_SKILL_CD,
                                    bi as int,
                                );
                            }
                            let refresh_buff_id = self.cters[oi].battle_buffs.buffs[bi].id;
                            let refresh_skill_id = match self.day_night {
                                DayNight::Day => self.cters[oi].battle_buffs.buffs[bi].buff_temp.par1,
                                DayNight::Night => self.cters[oi].battle_buffs.buffs[bi].buff_temp.par2,
                            };
                            let owner_index = self.cters[oi].get_map_cell_index();
                            if let Some(si) = self.cters[oi].find_skill(refresh_skill_id) {
                                let ghost mid_r = *self;
                                {
                                    let owner_cter = &mut self.cters[oi];
                                    let skill = &mut owner_cter.skills[si];
                                    skill.clean_cd();
                                }
                                proof {
                                    assert(crate::battle_cter::cter_wf(self.cters@[oi as int])) by {
                                        reveal(crate::battle_cter::cter_wf);
                                        assert(forall|t: int|
                                            0 <= t < self.cters@[oi as int].skills@.len() && t
                                                != si ==> #[trigger] self.cters@[
                                                oi as int
                                            ].skills@[t] == mid_r.cters@[oi as int].skills@[t]);
                                        assert(crate::battle_skill::skill_wf(
                                            self.cters@[oi as int].skills@[si as int],
                                        ));
                                    }
                                    crate::battle_trigger::lemma_wf_after_cter_touch(
                                        mid_r,
                                        *self,
                                        oi as int,
                                    );
                                    g_oc = owner_cter_id;
                                    g_sid = refresh_skill_id;
                                    crate::battle::lemma_cter_idx_unique(
                                        self.cters@,
                                        owner_cter_id,
                                        oi as int,
                                    );
                                    assert(self.cters@[oi as int].skills@[si as int].id == g_sid
                                        && self.cters@[oi as int].skills@[si as int].cd_times
                                        == 0);
                                    assert(spec_owner_skill_cleared(*self, g_oc, g_sid));
                                }
                                let mut pt = TargetPt::new();
                                pt.target_value.push(owner_index as u32);
                                let mut tep = crate::proto::TriggerEffectPt::new();
                                tep.field_type = EffectType::RefreshSkillCd.into_u32();
                                tep.buff_id = refresh_buff_id;
                                tep.value = refresh_skill_id;
                                pt.passive_effects.push(tep);
                                proof {
                                    assert(pt.target_value@ =~= seq![
                                        crate::battle_cter::spec_map_cell_index(
                                            old(self).cters@[oi as int],
                                        ) as u32,
                                    ]);
                                }
                                result = Some(pt);
                            }
                        },
                        None => {
                            proof {
                                crate::battle_cter::lemma_find_function_none(
                                    self.cters@[oi as int].battle_buffs.buffs@,
                                    ALL_CROW_DIE_REFRESH_SKILL_CD,
                                );
                            }
                        },
                    }
                }
            }
        }
        proof {
            assert(result is Some <==> spec_crow_refresh_due(*old(self), cter_id));
            if result is Some {
                assert(spec_owner_skill_cleared(*self, g_oc, g_sid));
            }
        }
        // a fallen summoner, unless it is the major character, takes its
        // remaining minions out of the battle with it
        let ghost pre2m = *self;
        proof {
            crate::battle::lemma_cter_idx_unique(self.cters@, cter_id, ci as int);
        }
        loop
            invariant
                battle_wf(*self),
                self.battle_player@ == pre2m.battle_player@,
                self.tile_map == pre2m.tile_map,
                crate::battle_helper::spec_same_battle_but_cters(pre2m, *self),
                spec_cter_idx(*self, cter_id) matches Some(cj) && self.cters@[
                    cj
                ].base_attr.user_id == user_id && self.cters@[cj].owner == owner,
                result is Some ==> spec_owner_skill_cleared(*self, g_oc, g_sid),
            decreases (match spec_cter_idx(*self, cter_id) {
                Some(cj) => self.cters@[cj].minons@.len() as int,
                None => 0int,
            }),
        {
            let ci3 = match self.find_cter_idx(cter_id) {
                Some(i) => i,
                None => {
                    break ;
                },
            };
            if self.cters[ci3].is_major || self.cters[ci3].minons.len() == 0 {
                break ;
            }
            let ghost pre_m = *self;
            let m;
            {
                proof {
                    reveal(crate::battle_cter::cter_wf);
                }
                let dying = &mut self.cters[ci3];
                m = match dying.minons.pop() {
                    Some(v) => v,
                    None => 0,
                };
            }
            proof {
                assert(crate::battle_cter::cter_wf(self.cters@[ci3 as int])) by {
                    reveal(crate::battle_cter::cter_wf);
                    assert(forall|a: int, b: int|
                        0 <= a < b < self.cters@[ci3 as int].minons@.len()
                            ==> self.cters@[ci3 as int].minons@[a] == pre_m.cters@[
                            ci3 as int
                        ].minons@[a] && self.cters@[ci3 as int].minons@[b] == pre_m.cters@[
                            ci3 as int
                        ].minons@[b]);
                }
                crate::battle_trigger::lemma_wf_after_cter_touch(pre_m, *self, ci3 as int);
                crate::battle::lemma_cter_idx_unique(self.cters@, cter_id, ci3 as int);
                if result is Some {
                    assert(forall|i: int|
                        0 <= i < self.cters@.len() && i != ci3 as int ==> self.cters@[i]
                            == pre_m.cters@[i]);
                    lemma_cleared_after_skills_touch(pre_m, *self, g_oc, g_sid);
                }
            }
            if m != cter_id {
                if let Some(mi) = self.find_cter_idx(m) {
                    let ghost pre_r = *self;
                    let _ = self.cters.remove(mi);
                    proof {
                        assert(forall|i: int|
                            0 <= i < self.cters@.len() ==> #[trigger] self.cters@[i] == (if i
                                < mi {
                                pre_r.cters@[i]
                            } else {
                                pre_r.cters@[i + 1]
                            }));
                        assert(battle_wf(*self));
                        let j3 = if (ci3 as int) < (mi as int) {
                            ci3 as int
                        } else {
                            ci3 as int - 1
                        };
                        assert(self.cters@[j3].base_attr.cter_id == cter_id);
                        crate::battle::lemma_cter_idx_unique(self.cters@, cter_id, j3);
                        if result is Some {
                            lemma_cleared_after_removal(pre_r, *self, mi as int, g_oc, g_sid);
                        }
                    }
                }
            }
        }
        // detach from the owner's minion set and deactivate its summoner
        if let Some((owner_cter_id, from_type)) = owner {
            let oi = self.find_cter_idx(owner_cter_id);
            if let Some(oi) = oi {
                let ghost mid2 = *self;
                proof {
                    reveal(crate::battle_cter::cter_wf);
                }
                let empty_now;
                {
                    let owner_cter = &mut self.cters[oi];
                    crate::battle_player::remove_u32(&mut owner_cter.minons, cter_id);
                    empty_now = owner_cter.minons.len() == 0;
                }
                proof {
                    assert(crate::battle_cter::cter_wf(self.cters@[oi as int])) by {
                        reveal(crate::battle_cter::cter_wf);
                        assert(forall|a: int, b: int|
                            0 <= a < b < self.cters@[oi as int].minons@.len()
                                ==> self.cters@[oi as int].minons@[a] != self.cters@[
                                oi as int
                            ].minons@[b]) by {
                            assert(forall|a: int|
                                0 <= a < self.cters@[oi as int].minons@.len()
                                    ==> mid2.cters@[oi as int].minons@.contains(
                                    #[trigger] self.cters@[oi as int].minons@[a],
                                ));
                        }
                    }
                    crate::battle_trigger::lemma_wf_after_cter_touch(mid2, *self, oi as int);
                    if result is Some {
                        assert(forall|i: int|
                            0 <= i < self.cters@.len() && i != oi as int ==> self.cters@[i]
                                == mid2.cters@[i]);
                        lemma_cleared_after_skills_touch(mid2, *self, g_oc, g_sid);
                    }
                }
                if empty_now {
                    let ghost mid2b = *self;
                    match from_type {
                        crate::battle_enum::FromType::Skill(skill_id) => {
                            self.deactivate_from_skill(Some(owner_cter_id), Some(skill_id));
                            proof {
                                if result is Some {
                                    lemma_cleared_after_skills_touch(mid2b, *self, g_oc, g_sid);
                                }
                            }
                        },
                        _ => {},
                    }
                }
            }
        }
        // the acting slot falls back to the player's major character
        let pi = self.find_player_idx(user_id);
        if let Some(pi) = pi {
            let ghost mid3 = *self;
            {
                let player = &mut self.battle_player[pi];
                if player.current_cter == cter_id {
                    player.current_cter = player.major_cter;
                }
            }
            proof {
                reveal(crate::battle_player::player_wf);
                assert(self.battle_player@ =~= mid3.battle_player@.update(
                    pi as int,
                    self.battle_player@[pi as int],
                ));
                crate::battle_helper::lemma_wf_after_player_update(mid3, *self, pi as int);
            }
        }
        // exactly one cascade per character: the arena forgets the id
        let ghost pre4 = *self;
        let ci2 = match self.find_cter_idx(cter_id) {
            Some(i) => i,
            None => {
                return result;
            },
        };
        let _ = self.cters.remove(ci2);
        proof {
            assert(battle_wf(*self)) by {
                assert(forall|i: int|
                    0 <= i < self.cters@.len() ==> #[trigger] self.cters@[i] == (if i < ci2 {
                        pre4.cters@[i]
                    } else {
                        pre4.cters@[i + 1]
                    }));
            }
            crate::battle::lemma_first_cter_idx_none(self.cters@, cter_id);
            if result is Some {
                lemma_cleared_after_removal(pre4, *self, ci2 as int, g_oc, g_sid);
            }
        }
        result
    }

    /// The average recorded league tier of everyone but this user,
    /// tiers below zero counting as zero; zero when nobody else is
    /// recorded.
    fn average_other_league(&self, except: u32) -> (r: i64)
        ensures
            r as int == spec_league_avg(self.leave_map@, except),
            0 <= r <= 0x80000000i64,
    {
        let mut lsum: i128 = 0;
        let mut lcnt: usize = 0;
        let mut i: usize = 0;
        while i < self.leave_map.len()
            invariant
                0 <= i <= self.leave_map@.len(),
                lsum == spec_league_sum(self.leave_map@.subrange(0, i as int), except),
                lcnt == spec_league_cnt(self.leave_map@.subrange(0, i as int), except),
                0 <= lsum <= lcnt * 0x80000000,
                lcnt <= i,
            decreases self.leave_map@.len() - i,
        {
            proof {
                let next = self.leave_map@.subrange(0, i as int + 1);
                assert(next.drop_last() =~= self.leave_map@.subrange(0, i as int));
                assert(lcnt * 0x80000000 + 0x80000000 == (lcnt + 1) * 0x80000000)
                    by (nonlinear_arith);
            }
            let entry = self.leave_map[i];
            if entry.0 != except {
                lcnt = lcnt + 1;
                if entry.1 > 0 {
                    lsum = lsum + entry.1 as i128;
                }
            }
            i = i + 1;
        }
        proof {
            assert(self.leave_map@.subrange(0, self.leave_map@.len() as int)
                =~= self.leave_map@);
        }
        if lcnt == 0 {
            return 0;
        }
        let avg: i128 = lsum / (lcnt as i128);
        proof {
            vstd::arithmetic::div_mod::lemma_fundamental_div_mod(lsum as int, lcnt as int);
            assert(lcnt * (lsum as int / lcnt as int) <= lsum as int);
            assert(avg as int == lsum as int / lcnt as int);
            assert(0 <= avg);
            assert(avg <= 0x80000000) by (nonlinear_arith)
                requires
                    lcnt * (avg as int) <= lsum as int,
                    lsum as int <= lcnt * 0x80000000,
                    lcnt >= 1,
            ;
        }
        avg as i64
    }

    /// The award-table base score of a rank, averaged over the lines
    /// settled together.
    fn base_rank_score(temps: &TemplatesMgr, rank: u8, count: usize) -> (r: i64)
        requires
            count > 0,
        ensures
            r as int == spec_div_trunc(
                spec_rank_score_sum(
                    temps.summary_award_temp_mgr.temps@,
                    rank as int + 1,
                    count as int,
                ),
                count as int,
            ),
            -0x8000000000i64 <= r <= 0x8000000000i64,
    {
        let ghost rows = temps.summary_award_temp_mgr.temps@;
        let mut acc: i64 = 0;
        let mut t: usize = 0;
        // ranks past the table's reach grant nothing, so the walk stops
        let limit: usize = if count > 256 {
            256
        } else {
            count
        };
        while t < limit
            invariant
                0 <= t <= limit,
                limit <= 256,
                limit == (if count > 256 {
                    256usize
                } else {
                    count
                }),
                rows == temps.summary_award_temp_mgr.temps@,
                acc == spec_rank_score_sum(rows, rank as int + 1, t as int),
                -t * 0x80000000 <= acc <= t * 0x80000000,
            decreases limit - t,
        {
            proof {
                assert(spec_rank_score_sum(rows, rank as int + 1, t as int + 1)
                    == spec_rank_score_sum(rows, rank as int + 1, t as int) + (if rank as int + 1
                    + t as int > 255 {
                    0int
                } else {
                    match crate::templates::spec_find_award(
                        rows,
                        (rank as int + 1 + t as int) as u32,
                    ) {
                        Some(tmp) => tmp.score as int,
                        None => 0int,
                    }
                })) by {
                    lemma_rank_score_sum_step(rows, rank as int + 1, t as int);
                }
                assert(t * 0x80000000 + 0x80000000 == (t + 1) * 0x80000000) by (nonlinear_arith);
                assert(-(t as int) * 0x80000000 - 0x80000000 == -(t as int + 1) * 0x80000000)
                    by (nonlinear_arith);
            }
            let rank64: u64 = rank as u64 + 1 + t as u64;
            if rank64 <= 255 {
                match temps.summary_award_temp_mgr().get_score_by_rank(rank64 as u8) {
                    Some(v) => {
                        acc = acc + v as i64;
                    },
                    None => {},
                }
            }
            t = t + 1;
        }
        proof {
            if count > 256 {
                lemma_rank_score_sum_high(rows, rank as int + 1 + 256, count as int - 256);
                lemma_rank_score_sum_split(rows, rank as int + 1, 256, count as int);
            }
        }
        let cnt64: u64 = count as u64;
        proof {
            assert(-0x8000000000i64 <= acc <= 0x8000000000i64) by (nonlinear_arith)
                requires
                    -t * 0x80000000 <= acc <= t * 0x80000000,
                    0 <= t <= 256,
            ;
        }
        let base: i64 = if acc >= 0 {
            let q: u64 = (acc as u64) / cnt64;
            proof {
                vstd::arithmetic::div_mod::lemma_fundamental_div_mod(acc as int, cnt64 as int);
                assert(q <= acc as u64) by (nonlinear_arith)
                    requires
                        cnt64 >= 1,
                        q == (acc as u64) / cnt64,
                        cnt64 * (q as int) <= acc as u64 as int,
                ;
            }
            q as i64
        } else {
            let neg: u64 = (-acc) as u64;
            let q: u64 = neg / cnt64;
            proof {
                vstd::arithmetic::div_mod::lemma_fundamental_div_mod(neg as int, cnt64 as int);
                assert(q <= neg) by (nonlinear_arith)
                    requires
                        cnt64 >= 1,
                        q == neg / cnt64,
                        cnt64 * (q as int) <= neg as int,
                ;
            }
            -(q as i64)
        };
        base
    }

    /// The player death cascade: fires only for a major character's
    /// death.  Marks the player dead, records a summary line, and hands
    /// the dead player's gold to the killer, unless the victim killed
    /// itself.  Outside world-boss battles, once only one player remains
    /// (or the caller marks the battle decided) every pending line is
    /// flushed into the settled summary, emptying the pending list so
    /// that settlement happens exactly once.  Only match rooms score the
    /// flush: each line gets the award-table base score of its rank,
    /// averaged over the lines settled together, plus ten points for
    /// every league tier the fallen player sits below the others'
    /// average, and its grade moves one step.
    #[verifier::rlimit(100)]
    #[verifier::spinoff_prover]
    pub fn after_player_died_trigger(
        &mut self,
        temps: &TemplatesMgr,
        from_user_id: u32,
        die_user_id: u32,
        is_last_one: bool,
    )
        requires
            battle_wf(*old(self)),
        ensures
            battle_wf(*final(self)),
            final(self).cters@ == old(self).cters@,
            final(self).battle_player@.len() == old(self).battle_player@.len(),
            spec_player_idx(*old(self), die_user_id) matches Some(di)
                ==> final(self).battle_player@[di].status.battle_state
                == crate::battle_enum::BattlePlayerState::Died,
            match (spec_player_idx(*old(self), die_user_id), spec_player_idx(
                *old(self),
                from_user_id,
            )) {
                (Some(di), Some(fi)) => (from_user_id != die_user_id && di != fi)
                    ==> final(self).battle_player@[fi].gold == clamp_gold(
                    old(self).battle_player@[fi].gold + old(self).battle_player@[di].gold,
                ),
                _ => true,
            },
            from_user_id == die_user_id ==> (forall|i: int|
                0 <= i < final(self).battle_player@.len()
                    ==> (#[trigger] final(self).battle_player@[i]).gold == old(
                    self,
                ).battle_player@[i].gold),
            // the fallen player's line is recorded, and the pending lines
            // settle with their rank scores exactly once
            match spec_player_idx(*old(self), die_user_id) {
                Some(di) => {
                    let alive = spec_alive_count(final(self).battle_player@);
                    let line = SummaryUser {
                        user_id: die_user_id,
                        name: old(self).battle_player@[di].name,
                        cter_temp_id: 0,
                        league: old(self).battle_player@[di].league,
                        grade: old(self).battle_player@[di].grade,
                        summary_rank: alive as u8,
                        reward_score: 0,
                    };
                    let pending = old(self).summary_vec_temp@.push(line);
                    let settle = old(self).room_type
                        != crate::battle_enum::RoomType::WorldBoss && (alive == 1
                        || is_last_one);
                    &&& (!settle ==> final(self).summary_vec@ == old(self).summary_vec@ && final(self).summary_vec_temp@ == pending)
                    &&& (settle ==> {
                        let rows = temps.summary_award_temp_mgr.temps@;
                        let is_match = old(self).room_type == crate::battle_enum::RoomType::Match;
                        let avg = spec_league_avg(old(self).leave_map@, die_user_id);
                        let self_league = old(self).battle_player@[di].league.league_id as int;
                        let mgv = spec_const_u32(temps.constant_temp_mgr.temps@, "max_grade"@, 2);
                        let max_grade = if mgv > 0x7FFFFFFF {
                            0x7FFFFFFFint
                        } else {
                            mgv
                        };
                        final(self).summary_vec_temp@.len() == 0 && final(self).summary_vec@
                            == old(self).summary_vec@ + spec_settled(
                            pending,
                            rows,
                            is_match,
                            pending.len() as int,
                            avg,
                            self_league,
                            max_grade,
                        )
                    })
                },
                None => *final(self) == *old(self),
            },
    {
        let di = match self.find_player_idx(die_user_id) {
            Some(i) => i,
            None => {
                return ;
            },
        };
        let ghost pre = *self;
        let gold;
        {
            let die_player = &mut self.battle_player[di];
            die_player.player_die();
            gold = die_player.gold;
        }
        proof {
            reveal(crate::battle_player::player_wf);
            assert(self.battle_player@ =~= pre.battle_player@.update(
                di as int,
                self.battle_player@[di as int],
            ));
            crate::battle_helper::lemma_wf_after_player_update(pre, *self, di as int);
            assert(forall|i: int|
                0 <= i < self.battle_player@.len() ==> (#[trigger] self.battle_player@[i]).user_id
                    == pre.battle_player@[i].user_id);
            crate::battle::lemma_player_idx_same_ids(
                pre.battle_player@,
                self.battle_player@,
                from_user_id,
            );
            crate::battle::lemma_player_idx_same_ids(
                pre.battle_player@,
                self.battle_player@,
                die_user_id,
            );
        }
        // the victim's gold goes to the killer, never to the victim itself
        if from_user_id != die_user_id {
            let fi = self.find_player_idx(from_user_id);
            if let Some(fi) = fi {
                let ghost mid = *self;
                {
                    let killer = &mut self.battle_player[fi];
                    proof {
                        reveal(crate::battle_player::player_wf);
                    }
                    killer.add_gold(gold);
                }
                proof {
                    reveal(crate::battle_player::player_wf);
                    assert(self.battle_player@ =~= mid.battle_player@.update(
                        fi as int,
                        self.battle_player@[fi as int],
                    ));
                    crate::battle_helper::lemma_wf_after_player_update(mid, *self, fi as int);
                }
            }
        }
        // a summary line for the fallen player
        let name;
        let grade;
        let league;
        {
            let p = &self.battle_player[di];
            name = p.name.clone();
            grade = p.grade;
            league = p.league;
        }
        let alive = self.get_alive_player_num();
        let sp = crate::battle_player::SummaryUser {
            user_id: die_user_id,
            name,
            cter_temp_id: 0,
            league,
            grade,
            summary_rank: alive as u8,
            reward_score: 0,
        };
        self.summary_vec_temp.push(sp);
        // world-boss battles defer all scoring to their own finalization
        if self.room_type.is_boss_type() {
            return ;
        }
        // settle exactly once, when only one player remains
        if alive == 1 || is_last_one {
            let is_match = self.room_type.is_match_type();
            let max_grade_u = temps.constant_temp_mgr().get_value_u32(
                &String::from_str("max_grade"),
                2,
            );
            let max_grade: i32 = if max_grade_u > 0x7FFFFFFFu32 {
                0x7FFFFFFF
            } else {
                max_grade_u as i32
            };
            let self_league_v = league.league_id;
            let avg = self.average_other_league(die_user_id);
            let count = self.summary_vec_temp.len();
            let ghost cts = self.cters@;
            let ghost pls = self.battle_player@;
            let ghost base_sv = self.summary_vec@;
            let ghost pending0 = self.summary_vec_temp@;
            let ghost rows = temps.summary_award_temp_mgr.temps@;
            let ghost g_avg: int = avg as int;
            let ghost g_sl: int = self_league_v as int;
            let ghost g_mg: int = max_grade as int;
            let ghost g_cnt: int = count as int;
            loop
                invariant
                    battle_wf(*self),
                    self.cters@ == cts,
                    self.battle_player@ == pls,
                    rows == temps.summary_award_temp_mgr.temps@,
                    is_match == (old(self).room_type == crate::battle_enum::RoomType::Match),
                    g_avg == avg as int,
                    g_sl == self_league_v as int,
                    g_mg == max_grade as int,
                    g_cnt == count as int,
                    count > 0,
                    0 <= avg <= 0x80000000i64,
                    self.summary_vec@ + spec_settled(
                        self.summary_vec_temp@,
                        rows,
                        is_match,
                        g_cnt,
                        g_avg,
                        g_sl,
                        g_mg,
                    ) == base_sv + spec_settled(
                        pending0,
                        rows,
                        is_match,
                        g_cnt,
                        g_avg,
                        g_sl,
                        g_mg,
                    ),
                ensures
                    self.cters@ == cts,
                    self.battle_player@ == pls,
                    battle_wf(*self),
                    self.summary_vec_temp@.len() == 0,
                    self.summary_vec@ == base_sv + spec_settled(
                        pending0,
                        rows,
                        is_match,
                        g_cnt,
                        g_avg,
                        g_sl,
                        g_mg,
                    ),
                decreases self.summary_vec_temp@.len(),
            {
                let ghost t = self.summary_vec_temp@;
                let ghost sv = self.summary_vec@;
                let next = self.summary_vec_temp.pop();
                match next {
                    Some(mut sp) => {
                        if is_match {
                            let base = Self::base_rank_score(temps, sp.summary_rank, count);
                            let unstable: i64 = if avg > self_league_v as i64 {
                                (avg - self_league_v as i64) * 10
                            } else {
                                0
                            };
                            let mut rw: i64 = base + unstable;
                            if rw > GOLD_CAP as i64 {
                                rw = GOLD_CAP as i64;
                            }
                            if rw < -(GOLD_CAP as i64) {
                                rw = -(GOLD_CAP as i64);
                            }
                            sp.reward_score = rw as i32;
                            sp.grade = if sp.summary_rank == 0 {
                                if sp.grade > 1 {
                                    max_grade
                                } else {
                                    sp.grade + 1
                                }
                            } else {
                                if sp.grade <= 1 {
                                    1
                                } else {
                                    sp.grade - 1
                                }
                            };
                        }
                        self.summary_vec.push(sp);
                        proof {
                            assert(self.summary_vec_temp@ =~= t.drop_last());
                            assert(sp == spec_scored(
                                t.last(),
                                rows,
                                is_match,
                                g_cnt,
                                g_avg,
                                g_sl,
                                g_mg,
                            ));
                            assert(self.summary_vec@ + spec_settled(
                                self.summary_vec_temp@,
                                rows,
                                is_match,
                                g_cnt,
                                g_avg,
                                g_sl,
                                g_mg,
                            ) =~= sv + spec_settled(t, rows, is_match, g_cnt, g_avg, g_sl, g_mg));
                        }
                    },
                    None => {
                        proof {
                            assert(spec_settled(
                                self.summary_vec_temp@,
                                rows,
                                is_match,
                                g_cnt,
                                g_avg,
                                g_sl,
                                g_mg,
                            ) =~= Seq::<SummaryUser>::empty());
                            assert(self.summary_vec@ + spec_settled(
                                self.summary_vec_temp@,
                                rows,
                                is_match,
                                g_cnt,
                                g_avg,
                                g_sl,
                                g_mg,
                            ) =~= self.summary_vec@);
                        }
                        break ;
                    },
                }
            }
            proof {
                assert(self.summary_vec@ =~= base_sv + spec_settled(
                    pending0,
                    rows,
                    is_match,
                    g_cnt,
                    g_avg,
                    g_sl,
                    g_mg,
                ));
            }
        }
    }
}

} // verus!

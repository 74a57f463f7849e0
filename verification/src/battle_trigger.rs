//! The trigger pipeline's buff-lifecycle hooks: consuming a buff's
//! counters, removing it exactly once when its limits are exhausted, and
//! the buff-lost hook that reverts transforms.

use vstd::prelude::*;

use crate::battle::spec_cter_idx;
use crate::battle::BattleData;
use crate::battle::battle_wf;
use crate::battle_cter::cter_wf;
use crate::battle_buff::Buff;
use crate::battle_enum::spec_is_transform_buff;
use crate::battle_helper::spec_same_battle_but_cters;

verus! {

/// The buff after one consumption tick: at a turn boundary a buff with a
/// configured duration loses one turn, but only when it was installed on
/// the current turn slot; off the boundary a buff with a configured
/// trigger count spends one trigger; otherwise nothing changes.
pub open spec fn spec_buff_ticked(b: Buff, is_turn_index: bool, next_turn_index: usize) -> Buff {
    if b.buff_temp.keep_time > 0 && is_turn_index {
        if b.turn_index == Some(next_turn_index) {
            Buff {
                keep_times: if b.keep_times > 0 {
                    (b.keep_times - 1) as u32
                } else {
                    0u32
                },
                ..b
            }
        } else {
            b
        }
    } else if b.buff_temp.trigger_times > 0 && !is_turn_index {
        Buff {
            trigger_timesed: if b.trigger_timesed > 0 {
                (b.trigger_timesed - 1) as u32
            } else {
                0u32
            },
            ..b
        }
    } else {
        b
    }
}

/// Whether a ticked buff's configured limits are exhausted: a
/// duration-only buff ends when its duration runs out, a trigger-only
/// buff when its triggers do, and a dual-limited buff when either does.
pub open spec fn spec_buff_exhausted(b: Buff) -> bool {
    ||| b.buff_temp.keep_time == 0 && b.trigger_timesed == 0
    ||| b.buff_temp.trigger_times == 0 && b.keep_times == 0
    ||| b.buff_temp.trigger_times > 0 && b.buff_temp.keep_time > 0 && (b.keep_times == 0
        || b.trigger_timesed == 0)
}

/// Every character keeps its id, hit points, life state, major flag and
/// owning player between the two snapshots; only buffs, skills and
/// template-dependent attributes may differ.
pub open spec fn spec_cters_keep_identity(a: BattleData, b: BattleData) -> bool {
    &&& b.cters@.len() == a.cters@.len()
    &&& forall|i: int|
        0 <= i < b.cters@.len() ==> (#[trigger] b.cters@[i]).base_attr.cter_id == a.cters@[
            i
        ].base_attr.cter_id && b.cters@[i].base_attr.hp == a.cters@[i].base_attr.hp
            && b.cters@[i].base_attr.user_id == a.cters@[i].base_attr.user_id && b.cters@[i].state
            == a.cters@[i].state && b.cters@[i].is_major == a.cters@[i].is_major
}

/// In `b`, the skill that installed an expiring buff is no longer marked
/// consumed: on the character `fc` (as `a` knows it), either no skill
/// carries the id `fs`, or the first one that does has `is_active` false.
pub open spec fn spec_first_skill_inactive(a: BattleData, b: BattleData, fc: u32, fs: u32) -> bool {
    match spec_cter_idx(a, fc) {
        Some(fi) => {
            let olds = a.cters@[fi].skills@;
            (forall|si: int| 0 <= si < olds.len() ==> (#[trigger] olds[si]).id != fs) || (
            exists|si: int|
                0 <= si < olds.len() && (#[trigger] olds[si]).id == fs && (forall|j: int|
                    0 <= j < si ==> olds[j].id != fs) && si < b.cters@[fi].skills@.len()
                    && b.cters@[fi].skills@[si].is_active == false)
        },
        None => true,
    }
}

impl BattleData {
    /// Consumes one use of the buff on a character or on a cell.
    ///
    /// A permanent buff is never touched.  Otherwise one counter ticks
    /// down as the boundary kind demands, and the buff is removed exactly
    /// when its configured limits are exhausted; removal deactivates the
    /// skill that installed the buff and, for a character buff, fires the
    /// buff-lost hook.  Returns the buff id when a removal happened.
    #[verifier::rlimit(100)]
    pub fn consume_buff(
        &mut self,
        temps: &crate::templates::TemplatesMgr,
        buff_id: u32,
        cter_id: Option<u32>,
        map_cell_index: Option<usize>,
        is_turn_index: bool,
    ) -> (r: Option<u32>)
        requires
            battle_wf(*old(self)),
        ensures
            battle_wf(*final(self)),
            match r {
                Some(id) => id == buff_id,
                None => true,
            },
            spec_cters_keep_identity(*old(self), *final(self)),
            final(self).battle_player@ == old(self).battle_player@,
            // an absent owner or buff leaves everything unchanged
            (match (cter_id, map_cell_index) {
                (Some(c), _) => spec_cter_idx(*old(self), c) is None,
                (None, Some(i)) => i >= old(self).tile_map.map_cells@.len(),
                (None, None) => true,
            }) ==> *final(self) == *old(self) && r is None,
            // on a character, one counter of the addressed buff ticks as
            // the boundary kind demands, and the buff goes exactly when
            // its configured limits are exhausted
            (match cter_id {
                Some(c) => final(self).tile_map == old(self).tile_map && (match spec_cter_idx(
                    *old(self),
                    c,
                ) {
                    Some(ci) => {
                        match crate::battle_cter::spec_find_buff_in(
                            old(self).cters@[ci].battle_buffs.buffs@,
                            buff_id,
                        ) {
                            Some(b0) => if b0.permanent {
                                *final(self) == *old(self) && r is None
                            } else {
                                let oldbuffs = old(self).cters@[ci].battle_buffs.buffs@;
                                let b1 = spec_buff_ticked(
                                    b0,
                                    is_turn_index,
                                    old(self).next_turn_index,
                                );
                                let removed = spec_buff_exhausted(b1);
                                &&& r == if removed {
                                    Some(buff_id)
                                } else {
                                    None::<u32>
                                }
                                &&& (!removed ==> spec_same_battle_but_cters(
                                    *old(self),
                                    *final(self),
                                ) && (exists|bi: int|
                                    0 <= bi < oldbuffs.len() && (#[trigger] oldbuffs[bi]).id
                                        == buff_id && (forall|j: int|
                                        0 <= j < bi ==> oldbuffs[j].id != buff_id) && final(self).cters@ == old(self).cters@.update(
                                        ci,
                                        final(self).cters@[ci],
                                    ) && crate::battle_cter::spec_same_cter_but_buffs(
                                        old(self).cters@[ci],
                                        final(self).cters@[ci],
                                    ) && final(self).cters@[ci].battle_buffs.buffs@
                                        == oldbuffs.update(bi, b1)))
                                &&& (removed ==> (match (b0.from_cter, b0.from_skill) {
                                    (Some(fc), Some(fs)) => spec_first_skill_inactive(
                                        *old(self),
                                        *final(self),
                                        fc,
                                        fs,
                                    ),
                                    _ => true,
                                }))
                                &&& (removed && (match crate::templates::spec_find_buff(
                                    temps.buff_temp_mgr.temps@,
                                    buff_id,
                                ) {
                                    Some(t) => !spec_is_transform_buff(t.function_id),
                                    None => true,
                                }) ==> (exists|bi: int|
                                    0 <= bi < oldbuffs.len() && (#[trigger] oldbuffs[bi]).id
                                        == buff_id && (forall|j: int|
                                        0 <= j < bi ==> oldbuffs[j].id != buff_id) && final(self).cters@[ci].battle_buffs.buffs@ == oldbuffs.remove(bi)))
                            },
                            None => *final(self) == *old(self) && r is None,
                        }
                    },
                    None => true,
                }),
                None => true,
            }),
            // on a cell, the same rule over the cell's buff list
            (match (cter_id, map_cell_index) {
                (None, Some(index)) => index < old(self).tile_map.map_cells@.len() ==> (match
                crate::battle_cter::spec_find_buff_in(
                    old(self).tile_map.map_cells@[index as int].buffs@,
                    buff_id,
                ) {
                    Some(b0) => if b0.permanent {
                        *final(self) == *old(self) && r is None
                    } else {
                        let oldbuffs = old(self).tile_map.map_cells@[index as int].buffs@;
                        let b1 = spec_buff_ticked(b0, is_turn_index, old(self).next_turn_index);
                        let removed = spec_buff_exhausted(b1);
                        &&& r == if removed {
                            Some(buff_id)
                        } else {
                            None::<u32>
                        }
                        &&& final(self).tile_map.map_cells@ == old(
                            self,
                        ).tile_map.map_cells@.update(
                            index as int,
                            final(self).tile_map.map_cells@[index as int],
                        )
                        &&& final(self).tile_map.un_pair_map@ == old(self).tile_map.un_pair_map@
                        &&& (!removed ==> (exists|bi: int|
                            0 <= bi < oldbuffs.len() && (#[trigger] oldbuffs[bi]).id == buff_id
                                && (forall|j: int| 0 <= j < bi ==> oldbuffs[j].id != buff_id)
                                && final(self).tile_map.map_cells@[index as int].buffs@
                                == oldbuffs.update(bi, b1)) && final(self).cters@ == old(
                            self,
                        ).cters@)
                        &&& (removed ==> (exists|bi: int|
                            0 <= bi < oldbuffs.len() && (#[trigger] oldbuffs[bi]).id == buff_id
                                && (forall|j: int| 0 <= j < bi ==> oldbuffs[j].id != buff_id)
                                && final(self).tile_map.map_cells@[index as int].buffs@
                                == oldbuffs.remove(bi)))
                    },
                    None => *final(self) == *old(self) && r is None,
                }),
                _ => true,
            }),
    {
        match cter_id {
            Some(cter_id) => self.consume_cter_buff(temps, buff_id, cter_id, is_turn_index),
            None => {
                match map_cell_index {
                    Some(index) => self.consume_cell_buff(buff_id, index, is_turn_index),
                    None => None,
                }
            },
        }
    }

    /// Consumes one use of a buff on a character; see `consume_buff`.
    #[verifier::rlimit(100)]
    #[verifier::spinoff_prover]
    fn consume_cter_buff(
        &mut self,
        temps: &crate::templates::TemplatesMgr,
        buff_id: u32,
        cter_id: u32,
        is_turn_index: bool,
    ) -> (r: Option<u32>)
        requires
            battle_wf(*old(self)),
        ensures
            battle_wf(*final(self)),
            match r {
                Some(id) => id == buff_id,
                None => true,
            },
            spec_cter_idx(*old(self), cter_id) is None ==> *final(self) == *old(self)
                && r is None,
            spec_cters_keep_identity(*old(self), *final(self)),
            final(self).battle_player@ == old(self).battle_player@,
            final(self).tile_map == old(self).tile_map,
            (match spec_cter_idx(*old(self), cter_id) {
                Some(ci) => {
                    match crate::battle_cter::spec_find_buff_in(
                        old(self).cters@[ci].battle_buffs.buffs@,
                        buff_id,
                    ) {
                        Some(b0) => if b0.permanent {
                            *final(self) == *old(self) && r is None
                        } else {
                            let oldbuffs = old(self).cters@[ci].battle_buffs.buffs@;
                            let b1 = spec_buff_ticked(
                                b0,
                                is_turn_index,
                                old(self).next_turn_index,
                            );
                            let removed = spec_buff_exhausted(b1);
                            &&& r == if removed {
                                Some(buff_id)
                            } else {
                                None::<u32>
                            }
                            &&& (!removed ==> spec_same_battle_but_cters(
                                *old(self),
                                *final(self),
                            ) && (exists|bi: int|
                                0 <= bi < oldbuffs.len() && (#[trigger] oldbuffs[bi]).id == buff_id
                                    && (forall|j: int| 0 <= j < bi ==> oldbuffs[j].id != buff_id)
                                    && final(self).cters@ == old(self).cters@.update(
                                    ci,
                                    final(self).cters@[ci],
                                ) && crate::battle_cter::spec_same_cter_but_buffs(
                                    old(self).cters@[ci],
                                    final(self).cters@[ci],
                                ) && final(self).cters@[ci].battle_buffs.buffs@ == oldbuffs.update(
                                    bi,
                                    b1,
                                )))
                            &&& (removed ==> (match (b0.from_cter, b0.from_skill) {
                                (Some(fc), Some(fs)) => spec_first_skill_inactive(
                                    *old(self),
                                    *final(self),
                                    fc,
                                    fs,
                                ),
                                _ => true,
                            }))
                            &&& (removed && (match crate::templates::spec_find_buff(
                                temps.buff_temp_mgr.temps@,
                                buff_id,
                            ) {
                                Some(t) => !spec_is_transform_buff(t.function_id),
                                None => true,
                            }) ==> (exists|bi: int|
                                0 <= bi < oldbuffs.len() && (#[trigger] oldbuffs[bi]).id == buff_id
                                    && (forall|j: int| 0 <= j < bi ==> oldbuffs[j].id != buff_id)
                                    && final(self).cters@[ci].battle_buffs.buffs@
                                    == oldbuffs.remove(bi)))
                        },
                        None => *final(self) == *old(self) && r is None,
                    }
                },
                None => true,
            }),
    {
        let ci = match self.find_cter_idx(cter_id) {
            Some(i) => i,
            None => {
                return None;
            },
        };
        let bi = match self.cters[ci].battle_buffs.find_buff(buff_id) {
            Some(i) => i,
            None => {
                proof {
                    crate::battle_cter::lemma_find_buff_in_none(
                        self.cters@[ci as int].battle_buffs.buffs@,
                        buff_id,
                    );
                }
                return None;
            },
        };
        proof {
            crate::battle_cter::lemma_find_buff_in(
                self.cters@[ci as int].battle_buffs.buffs@,
                buff_id,
                bi as int,
            );
        }
        if self.cters[ci].battle_buffs.buffs[bi].permanent {
            return None;
        }
        let next_turn_index = self.next_turn_index;
        let ghost pre = *self;
        let need_remove;
        let from_cter;
        let from_skill;
        {
            let buff = &mut self.cters[ci].battle_buffs.buffs[bi];
            let cfg_keep_time = buff.buff_temp.keep_time;
            let cfg_trigger_time = buff.buff_temp.trigger_times;
            if cfg_keep_time > 0 && is_turn_index {
                if buff.turn_index == Some(next_turn_index) {
                    buff.sub_keep_times();
                }
            } else if cfg_trigger_time > 0 && !is_turn_index {
                buff.sub_trigger_timesed();
            }
            need_remove = if cfg_keep_time == 0 && buff.trigger_timesed == 0 {
                true
            } else if cfg_trigger_time == 0 && buff.keep_times == 0 {
                true
            } else if cfg_trigger_time > 0 && cfg_keep_time > 0 && (buff.keep_times == 0
                || buff.trigger_timesed == 0) {
                true
            } else {
                false
            };
            from_cter = buff.from_cter;
            from_skill = buff.from_skill;
        }
        proof {
            reveal(crate::battle_cter::cter_wf);
            lemma_wf_after_buff_step(pre, *self, ci as int, bi as int);
            assert(self.cters@[ci as int].battle_buffs.buffs@[bi as int] == spec_buff_ticked(
                pre.cters@[ci as int].battle_buffs.buffs@[bi as int],
                is_turn_index,
                pre.next_turn_index,
            ));
            assert(self.cters@ =~= pre.cters@.update(ci as int, self.cters@[ci as int]));
            assert(self.cters@[ci as int].battle_buffs.buffs@ =~= pre.cters@[
                ci as int
            ].battle_buffs.buffs@.update(
                bi as int,
                self.cters@[ci as int].battle_buffs.buffs@[bi as int],
            ));
        }
        if !need_remove {
            return None;
        }
        let ghost s1 = *self;
        self.deactivate_from_skill(from_cter, from_skill);
        let ghost s2 = *self;
        proof {
            if from_cter is Some && from_skill is Some {
                crate::battle::lemma_cter_idx_same_ids(
                    pre.cters@,
                    s1.cters@,
                    from_cter.unwrap(),
                );
            }
        }
        let ghost pre2 = *self;
        {
            let cter = &mut self.cters[ci];
            cter.remove_buff(buff_id);
        }
        proof {
            assert(crate::battle_cter::cter_wf(self.cters@[ci as int])) by {
                reveal(crate::battle_cter::cter_wf);
                assert(forall|k: int|
                    0 <= k < self.cters@[ci as int].battle_buffs.buffs@.len()
                        ==> pre2.cters@[ci as int].battle_buffs.buffs@.contains(
                        #[trigger] self.cters@[ci as int].battle_buffs.buffs@[k],
                    ) || crate::battle_buff::buff_wf(
                        self.cters@[ci as int].battle_buffs.buffs@[k],
                    ));
            }
            lemma_wf_after_cter_touch(pre2, *self, ci as int);
            // the first occurrence in the ticked list is the ticked slot
            let oldbuffs = pre.cters@[ci as int].battle_buffs.buffs@;
            let p = choose|p: int|
                0 <= p < pre2.cters@[ci as int].battle_buffs.buffs@.len() && (
                #[trigger] pre2.cters@[ci as int].battle_buffs.buffs@[p]).id == buff_id && (
                forall|j: int|
                    0 <= j < p ==> pre2.cters@[ci as int].battle_buffs.buffs@[j].id != buff_id)
                    && self.cters@[ci as int].battle_buffs.buffs@ == pre2.cters@[
                    ci as int
                ].battle_buffs.buffs@.remove(p);
            assert(p == bi as int);
            assert(self.cters@[ci as int].battle_buffs.buffs@ =~= oldbuffs.remove(bi as int));
        }
        let ghost s3 = *self;
        self.buff_lost_trigger(temps, cter_id, buff_id);
        proof {
            if (match crate::templates::spec_find_buff(temps.buff_temp_mgr.temps@, buff_id) {
                Some(t) => !spec_is_transform_buff(t.function_id),
                None => true,
            }) {
                assert(*self == s3);
            }
            // the cleared consumed flag survives the removal and the hook
            if from_cter is Some && from_skill is Some {
                let fc = from_cter.unwrap();
                let fs = from_skill.unwrap();
                crate::battle::lemma_first_cter_idx_in_range(pre.cters@, fc);
                assert(forall|i: int|
                    0 <= i < self.cters@.len() ==> (#[trigger] self.cters@[i]).skills
                        == s2.cters@[i].skills);
                match spec_cter_idx(pre, fc) {
                    Some(fi) => {
                        assert(pre.cters@[fi].skills@ == s1.cters@[fi].skills@);
                        assert(spec_first_skill_inactive(s1, s2, fc, fs));
                        let olds = s1.cters@[fi].skills@;
                        if !(forall|si: int|
                            0 <= si < olds.len() ==> (#[trigger] olds[si]).id != fs) {
                            let si = choose|si: int|
                                0 <= si < olds.len() && (#[trigger] olds[si]).id == fs && (forall|
                                    j: int,
                                |
                                    0 <= j < si ==> olds[j].id != fs) && si
                                    < s2.cters@[fi].skills@.len()
                                    && s2.cters@[fi].skills@[si].is_active == false;
                            assert(self.cters@[fi].skills@[si].is_active == false);
                            assert(spec_first_skill_inactive(pre, *self, fc, fs));
                        }
                    },
                    None => {},
                }
            }
        }
        Some(buff_id)
    }

    /// Consumes one use of a trap or lock sitting on a cell; see
    /// `consume_buff`.
    #[verifier::rlimit(100)]
    #[verifier::spinoff_prover]
    fn consume_cell_buff(&mut self, buff_id: u32, index: usize, is_turn_index: bool) -> (r: Option<
        u32,
    >)
        requires
            battle_wf(*old(self)),
        ensures
            battle_wf(*final(self)),
            match r {
                Some(id) => id == buff_id,
                None => true,
            },
            index >= old(self).tile_map.map_cells@.len() ==> *final(self) == *old(self)
                && r is None,
            spec_cters_keep_identity(*old(self), *final(self)),
            final(self).battle_player@ == old(self).battle_player@,
            final(self).tile_map.map_cells@.len() == old(self).tile_map.map_cells@.len(),
            index < old(self).tile_map.map_cells@.len() ==> (match
            crate::battle_cter::spec_find_buff_in(
                old(self).tile_map.map_cells@[index as int].buffs@,
                buff_id,
            ) {
                Some(b0) => if b0.permanent {
                    *final(self) == *old(self) && r is None
                } else {
                    let oldbuffs = old(self).tile_map.map_cells@[index as int].buffs@;
                    let b1 = spec_buff_ticked(b0, is_turn_index, old(self).next_turn_index);
                    let removed = spec_buff_exhausted(b1);
                    &&& r == if removed {
                        Some(buff_id)
                    } else {
                        None::<u32>
                    }
                    &&& crate::map_data::spec_same_cell_but_buffs(
                        old(self).tile_map.map_cells@[index as int],
                        final(self).tile_map.map_cells@[index as int],
                    )
                    &&& final(self).tile_map.map_cells@ == old(self).tile_map.map_cells@.update(
                        index as int,
                        final(self).tile_map.map_cells@[index as int],
                    )
                    &&& final(self).tile_map.un_pair_map@ == old(self).tile_map.un_pair_map@
                    &&& (!removed ==> (exists|bi: int|
                        0 <= bi < oldbuffs.len() && (#[trigger] oldbuffs[bi]).id == buff_id && (
                        forall|j: int| 0 <= j < bi ==> oldbuffs[j].id != buff_id) && final(self).tile_map.map_cells@[index as int].buffs@ == oldbuffs.update(bi, b1))
                        && final(self).cters@ == old(self).cters@)
                    &&& (removed ==> (exists|bi: int|
                        0 <= bi < oldbuffs.len() && (#[trigger] oldbuffs[bi]).id == buff_id && (
                        forall|j: int| 0 <= j < bi ==> oldbuffs[j].id != buff_id) && final(self).tile_map.map_cells@[index as int].buffs@ == oldbuffs.remove(bi)))
                    &&& (removed ==> (match (b0.from_cter, b0.from_skill) {
                        (Some(fc), Some(fs)) => spec_first_skill_inactive(
                            *old(self),
                            *final(self),
                            fc,
                            fs,
                        ),
                        _ => true,
                    }))
                },
                None => *final(self) == *old(self) && r is None,
            }),
    {
        if index >= self.tile_map.map_cells.len() {
            return None;
        }
        let bi = match self.tile_map.map_cells[index].find_buff(buff_id) {
            Some(i) => i,
            None => {
                proof {
                    crate::battle_cter::lemma_find_buff_in_none(
                        self.tile_map.map_cells@[index as int].buffs@,
                        buff_id,
                    );
                }
                return None;
            },
        };
        proof {
            crate::battle_cter::lemma_find_buff_in(
                self.tile_map.map_cells@[index as int].buffs@,
                buff_id,
                bi as int,
            );
        }
        if self.tile_map.map_cells[index].buffs[bi].permanent {
            return None;
        }
        let next_turn_index = self.next_turn_index;
        let ghost pre = *self;
        let need_remove;
        let from_cter;
        let from_skill;
        {
            let buff = &mut self.tile_map.map_cells[index].buffs[bi];
            let cfg_keep_time = buff.buff_temp.keep_time;
            let cfg_trigger_time = buff.buff_temp.trigger_times;
            if cfg_keep_time > 0 && is_turn_index {
                if buff.turn_index == Some(next_turn_index) {
                    buff.sub_keep_times();
                }
            } else if cfg_trigger_time > 0 && !is_turn_index {
                buff.sub_trigger_timesed();
            }
            need_remove = if cfg_keep_time == 0 && buff.trigger_timesed == 0 {
                true
            } else if cfg_trigger_time == 0 && buff.keep_times == 0 {
                true
            } else if cfg_trigger_time > 0 && cfg_keep_time > 0 && (buff.keep_times == 0
                || buff.trigger_timesed == 0) {
                true
            } else {
                false
            };
            from_cter = buff.from_cter;
            from_skill = buff.from_skill;
        }
        proof {
            lemma_wf_after_cell_buff_mut(pre, *self, index as int);
            assert(self.tile_map.map_cells@[index as int].buffs@[bi as int] == spec_buff_ticked(
                pre.tile_map.map_cells@[index as int].buffs@[bi as int],
                is_turn_index,
                pre.next_turn_index,
            ));
            assert(self.tile_map.map_cells@ =~= pre.tile_map.map_cells@.update(
                index as int,
                self.tile_map.map_cells@[index as int],
            ));
            assert(self.tile_map.map_cells@[index as int].buffs@ =~= pre.tile_map.map_cells@[
                index as int
            ].buffs@.update(bi as int, self.tile_map.map_cells@[index as int].buffs@[bi as int]));
        }
        if !need_remove {
            return None;
        }
        self.deactivate_from_skill(from_cter, from_skill);
        let ghost pre2 = *self;
        {
            let cell = &mut self.tile_map.map_cells[index];
            cell.remove_buff(buff_id);
        }
        proof {
            lemma_wf_after_cell_buff_mut(pre2, *self, index as int);
            let oldbuffs = pre.tile_map.map_cells@[index as int].buffs@;
            let p = choose|p: int|
                0 <= p < pre2.tile_map.map_cells@[index as int].buffs@.len() && (
                #[trigger] pre2.tile_map.map_cells@[index as int].buffs@[p]).id == buff_id && (
                forall|j: int|
                    0 <= j < p ==> pre2.tile_map.map_cells@[index as int].buffs@[j].id != buff_id)
                    && self.tile_map.map_cells@[index as int].buffs@ == pre2.tile_map.map_cells@[
                    index as int
                ].buffs@.remove(p);
            assert(p == bi as int);
            assert(self.tile_map.map_cells@[index as int].buffs@ =~= oldbuffs.remove(bi as int));
            assert(self.tile_map.map_cells@ =~= pre.tile_map.map_cells@.update(
                index as int,
                self.tile_map.map_cells@[index as int],
            ));
        }
        Some(buff_id)
    }

    /// Clears the consumed flag of the skill that installed an expiring
    /// buff, when both the installer and the skill still exist.
    pub fn deactivate_from_skill(&mut self, from_cter: Option<u32>, from_skill: Option<u32>)
        requires
            battle_wf(*old(self)),
        ensures
            battle_wf(*final(self)),
            spec_same_battle_but_cters(*old(self), *final(self)),
            final(self).cters@.len() == old(self).cters@.len(),
            forall|i: int|
                0 <= i < final(self).cters@.len()
                    ==> (#[trigger] final(self).cters@[i]).base_attr == old(
                    self,
                ).cters@[i].base_attr && final(self).cters@[i].state == old(
                    self,
                ).cters@[i].state && final(self).cters@[i].battle_buffs == old(
                    self,
                ).cters@[i].battle_buffs && final(self).cters@[i].is_major == old(
                    self,
                ).cters@[i].is_major && final(self).cters@[i].skills@.len() == old(
                    self,
                ).cters@[i].skills@.len(),
            forall|i: int, k: int|
                0 <= i < final(self).cters@.len() && 0 <= k < final(self).cters@[i].skills@.len()
                    ==> crate::battle_skill::spec_same_but_active(
                    old(self).cters@[i].skills@[k],
                    #[trigger] final(self).cters@[i].skills@[k],
                ),
            match (from_cter, from_skill) {
                (Some(fc), Some(fs)) => spec_first_skill_inactive(
                    *old(self),
                    *final(self),
                    fc,
                    fs,
                ),
                _ => *final(self) == *old(self),
            },
    {
        let from_cter_id = match from_cter {
            Some(c) => c,
            None => {
                return ;
            },
        };
        let from_skill_id = match from_skill {
            Some(s) => s,
            None => {
                return ;
            },
        };
        let ci = match self.find_cter_idx(from_cter_id) {
            Some(i) => i,
            None => {
                return ;
            },
        };
        let ghost pre = *self;
        let si = match self.cters[ci].find_skill(from_skill_id) {
            Some(i) => i,
            None => {
                return ;
            },
        };
        {
            let skill = &mut self.cters[ci].skills[si];
            skill.is_active = false;
        }
        proof {
            assert(crate::battle_cter::cter_wf(self.cters@[ci as int])) by {
                reveal(crate::battle_cter::cter_wf);
                assert(forall|k: int|
                    0 <= k < self.cters@[ci as int].skills@.len() && k != si
                        ==> #[trigger] self.cters@[ci as int].skills@[k] == pre.cters@[
                        ci as int
                    ].skills@[k]);
            }
            lemma_wf_after_cter_touch(pre, *self, ci as int);
        }
    }

    /// The buff-lost hook: losing a transform buff reverts the transform
    /// on the character that carried it.
    pub fn buff_lost_trigger(
        &mut self,
        temps: &crate::templates::TemplatesMgr,
        cter_id: u32,
        buff_id: u32,
    )
        requires
            battle_wf(*old(self)),
        ensures
            battle_wf(*final(self)),
            spec_same_battle_but_cters(*old(self), *final(self)),
            final(self).cters@.len() == old(self).cters@.len(),
            forall|i: int|
                0 <= i < final(self).cters@.len()
                    ==> (#[trigger] final(self).cters@[i]).base_attr.cter_id == old(
                    self,
                ).cters@[i].base_attr.cter_id && final(self).cters@[i].base_attr.hp == old(
                    self,
                ).cters@[i].base_attr.hp && final(self).cters@[i].state == old(
                    self,
                ).cters@[i].state && final(self).cters@[i].skills == old(self).cters@[i].skills
                    && final(self).cters@[i].base_attr.user_id == old(
                    self,
                ).cters@[i].base_attr.user_id && final(self).cters@[i].is_major == old(
                    self,
                ).cters@[i].is_major,
            // nothing changes unless the lost buff marks a transform
            (match crate::templates::spec_find_buff(temps.buff_temp_mgr.temps@, buff_id) {
                Some(t) => !spec_is_transform_buff(t.function_id),
                None => true,
            }) ==> *final(self) == *old(self),
    {
        let is_transform = match temps.buff_temp_mgr().get_temp(&buff_id) {
            Some(t) => crate::battle_enum::is_transform_buff(t.function_id),
            None => false,
        };
        if !is_transform {
            return ;
        }
        let ci = match self.find_cter_idx(cter_id) {
            Some(i) => i,
            None => {
                return ;
            },
        };
        let ghost pre = *self;
        {
            let cter = &mut self.cters[ci];
            let _ = cter.transform_back();
        }
        proof {
            assert(crate::battle_cter::cter_wf(self.cters@[ci as int])) by {
                reveal(crate::battle_cter::cter_wf);
                assert(forall|k: int|
                    0 <= k < self.cters@[ci as int].battle_buffs.buffs@.len()
                        ==> pre.cters@[ci as int].battle_buffs.buffs@.contains(
                        #[trigger] self.cters@[ci as int].battle_buffs.buffs@[k],
                    ));
            }
            lemma_wf_after_cter_touch(pre, *self, ci as int);
        }
    }
}

/// Stepping one buff's counters in place keeps the aggregate well-formed.
#[verifier::rlimit(100)]
pub proof fn lemma_wf_after_buff_step(a: BattleData, b: BattleData, ci: int, bi: int)
    requires
        battle_wf(a),
        0 <= ci < a.cters@.len(),
        b.cters@ == a.cters@.update(ci, b.cters@[ci]),
        spec_same_battle_but_cters(a, b),
        crate::battle_cter::spec_same_cter_but_buffs(a.cters@[ci], b.cters@[ci]),
        0 <= bi < a.cters@[ci].battle_buffs.buffs@.len(),
        b.cters@[ci].battle_buffs.buffs@ == a.cters@[ci].battle_buffs.buffs@.update(
            bi,
            b.cters@[ci].battle_buffs.buffs@[bi],
        ),
        crate::battle_buff::buff_wf(b.cters@[ci].battle_buffs.buffs@[bi]),
    ensures
        battle_wf(b),
{
    assert(forall|k: int| 0 <= k < b.cters@.len() && k != ci ==> b.cters@[k] == a.cters@[k]);
    assert(cter_wf(b.cters@[ci])) by {
        reveal(cter_wf);
        assert(forall|k: int|
            0 <= k < b.cters@[ci].battle_buffs.buffs@.len() && k != bi ==> b.cters@[
                ci
            ].battle_buffs.buffs@[k] == a.cters@[ci].battle_buffs.buffs@[k]);
    }
}

/// Touching one character in place, without changing its id, hit points,
/// life state or the bounded stats, keeps the aggregate well-formed as
/// long as the new value is itself well-formed.
#[verifier::rlimit(100)]
pub proof fn lemma_wf_after_cter_touch(a: BattleData, b: BattleData, ci: int)
    requires
        battle_wf(a),
        0 <= ci < a.cters@.len(),
        b.cters@ == a.cters@.update(ci, b.cters@[ci]),
        spec_same_battle_but_cters(a, b),
        cter_wf(b.cters@[ci]),
        b.cters@[ci].base_attr.cter_id == a.cters@[ci].base_attr.cter_id,
    ensures
        battle_wf(b),
{
    assert(forall|k: int| 0 <= k < b.cters@.len() && k != ci ==> b.cters@[k] == a.cters@[k]);
}

/// Stepping or dropping one cell buff in place keeps the aggregate
/// well-formed, as long as the cell keeps everything but its buff list.
#[verifier::rlimit(100)]
#[verifier::spinoff_prover]
pub proof fn lemma_wf_after_cell_buff_mut(a: BattleData, b: BattleData, index: int)
    requires
        battle_wf(a),
        0 <= index < a.tile_map.map_cells@.len(),
        b.tile_map.map_cells@ == a.tile_map.map_cells@.update(
            index,
            b.tile_map.map_cells@[index],
        ),
        b.tile_map.un_pair_map@ == a.tile_map.un_pair_map@,
        b.tile_map.id == a.tile_map.id,
        crate::map_data::spec_same_cell_but_buffs(
            a.tile_map.map_cells@[index],
            b.tile_map.map_cells@[index],
        ),
        b.battle_player == a.battle_player,
        b.cters == a.cters,
        b.turn_orders == a.turn_orders,
        b.next_turn_index == a.next_turn_index,
    ensures
        battle_wf(b),
{
    reveal(crate::map_data::tile_map_wf);
    assert(forall|i: int|
        0 <= i < b.tile_map.map_cells@.len() && i != index ==> b.tile_map.map_cells@[i]
            == a.tile_map.map_cells@[i]);
    assert(crate::map_data::tile_map_wf(b.tile_map)) by {
        assert(forall|i: int|
            0 <= i < b.tile_map.map_cells@.len() ==> (#[trigger] b.tile_map.map_cells@[i]).index
                == a.tile_map.map_cells@[i].index && b.tile_map.map_cells@[i].pair_index
                == a.tile_map.map_cells@[i].pair_index);
    }
}

} // verus!

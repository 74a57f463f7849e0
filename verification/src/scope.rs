//! Targeting and area-of-effect resolution: which cells and which living
//! characters a skill or buff's area definition matches.

use vstd::prelude::*;

use crate::battle::spec_cter_idx;
use crate::battle::BattleData;
use crate::battle::battle_wf;
use crate::battle_cter::spec_map_cell_index;
use crate::battle_cter::BattleCharacter;
use crate::battle_enum::BattleCterState;
use crate::battle_enum::TargetType;
use crate::battle_enum::GLOBAL_SCOPE_TEMP_ID;
use crate::battle_enum::TRIGGER_SCOPE_NEAR_TEMP_ID;
use crate::battle_player::contains_u32;
use crate::map_data::MapCell;
use crate::templates::Direction2dTemp;
use crate::templates::SkillScopeTemp;
use crate::templates::TemplatesMgr;

verus! {

/// Whether a character passes the team and self rules a target kind
/// implies.  Team exclusion also binds the kinds that are filtered after
/// the geometric match.
#[verifier::opaque]
pub open spec fn spec_scope_filter(
    target_type: TargetType,
    cter_id: u32,
    team_id: u8,
    c: BattleCharacter,
) -> bool {
    &&& c.state != BattleCterState::Die
    &&& !(target_type.spec_excludes_self() && c.base_attr.cter_id == cter_id)
    &&& !((target_type.spec_enemys_only() || target_type == TargetType::MapCellEnemys)
        && c.base_attr.team_id == team_id)
    &&& !(target_type.spec_team_only() && c.base_attr.team_id != team_id)
}

/// Whether the cell at `ci` lies on one of the area's offsets from the
/// cell at `center`.
#[verifier::opaque]
pub open spec fn spec_covered(
    cells: Seq<MapCell>,
    scope2d: Seq<Direction2dTemp>,
    center: int,
    ci: int,
) -> bool {
    exists|d: int, k: int|
        0 <= d < scope2d.len() && 0 <= k < scope2d[d].direction2d@.len() && cells[ci].x == cells[
            center
        ].x + (#[trigger] scope2d[d].direction2d@[k]).x && cells[ci].y == cells[center].y
            + scope2d[d].direction2d@[k].y
}

/// Whether the cell at `ci` contributes its occupant to an area match:
/// the cell is covered and among the proposed targets when some are
/// given, somebody stands on it, and that character passes the team and
/// self rules.
#[verifier::opaque]
pub open spec fn spec_scope_cell_hit(
    b: BattleData,
    scope2d: Seq<Direction2dTemp>,
    center: int,
    targets: Option<Seq<u32>>,
    target_type: TargetType,
    cter_id: u32,
    team_id: u8,
    ci: int,
) -> bool {
    &&& spec_covered(b.tile_map.map_cells@, scope2d, center, ci)
    &&& b.tile_map.map_cells@[ci].cter_id != 0
    &&& match targets {
        Some(ts) => ts.contains(ci as u32),
        None => true,
    }
    &&& match spec_cter_idx(b, b.tile_map.map_cells@[ci].cter_id) {
        Some(j) => spec_scope_filter(target_type, cter_id, team_id, b.cters@[j]),
        None => false,
    }
}

/// Whether a character id belongs to the characters an area match yields:
/// it occupies a contributing cell.
#[verifier::opaque]
pub open spec fn spec_scope_user_hit(
    b: BattleData,
    scope2d: Seq<Direction2dTemp>,
    center: int,
    targets: Option<Seq<u32>>,
    target_type: TargetType,
    cter_id: u32,
    team_id: u8,
    id: u32,
) -> bool {
    exists|ci: int|
        0 <= ci < b.tile_map.map_cells@.len() && #[trigger] spec_scope_cell_hit(
            b,
            scope2d,
            center,
            targets,
            target_type,
            cter_id,
            team_id,
            ci,
        ) && b.tile_map.map_cells@[ci].cter_id == id
}

/// True when the cell at `ci` lies on one of the area's offsets from the
/// cell at `center`.
fn covered(cells: &Vec<MapCell>, scope2d: &Vec<Direction2dTemp>, center: usize, ci: usize) -> (r:
    bool)
    requires
        center < cells@.len(),
        ci < cells@.len(),
    ensures
        r == spec_covered(cells@, scope2d@, center as int, ci as int),
{
    proof {
        reveal(spec_covered);
    }
    let cx = cells[center].x;
    let cy = cells[center].y;
    let x = cells[ci].x;
    let y = cells[ci].y;
    let mut d: usize = 0;
    while d < scope2d.len()
        invariant
            0 <= d <= scope2d@.len(),
            cx == cells@[center as int].x,
            cy == cells@[center as int].y,
            x == cells@[ci as int].x,
            y == cells@[ci as int].y,
            forall|dd: int, k: int|
                0 <= dd < d && 0 <= k < scope2d@[dd].direction2d@.len() ==> !(x == cx + (
                #[trigger] scope2d@[dd].direction2d@[k]).x && y == cy
                    + scope2d@[dd].direction2d@[k].y),
        decreases scope2d@.len() - d,
    {
        let dir = &scope2d[d];
        let mut k: usize = 0;
        while k < dir.direction2d.len()
            invariant
                0 <= k <= dir.direction2d@.len(),
                *dir == scope2d@[d as int],
                d < scope2d@.len(),
                cx == cells@[center as int].x,
                cy == cells@[center as int].y,
                x == cells@[ci as int].x,
                y == cells@[ci as int].y,
                forall|kk: int|
                    0 <= kk < k ==> !(x == cx + (#[trigger] dir.direction2d@[kk]).x && y == cy
                        + dir.direction2d@[kk].y),
            decreases dir.direction2d@.len() - k,
        {
            let coord = &dir.direction2d[k];
            if (x as i128) == (cx as i128) + (coord.x as i128) && (y as i128) == (cy as i128) + (
            coord.y as i128) {
                proof {
                    assert(spec_covered(cells@, scope2d@, center as int, ci as int)) by {
                        reveal(spec_covered);
                        assert(x == cx + scope2d@[d as int].direction2d@[k as int].x && y == cy
                            + scope2d@[d as int].direction2d@[k as int].y);
                    }
                }
                return true;
            }
            k = k + 1;
        }
        d = d + 1;
    }
    proof {
        reveal(spec_covered);
    }
    false
}

impl BattleData {
    /// Resolves an area definition into the matched cells and the matched
    /// living characters.
    ///
    /// Three modes, selected by which optional arguments are present:
    /// with neither proposed targets nor an area, the fixed adjacent ring
    /// is the area; with only an area, its offsets from the origin cell
    /// are enumerated; with both, the characters are collected only from
    /// covered cells whose index is among the proposed targets.  An area
    /// with no offsets at all matches every living character; an area
    /// with the reserved global id does so whatever else was asked.
    /// Characters are filtered by the team and self rules the target kind
    /// implies.  The matched cells come back in board order; a character
    /// comes back at most once.
    #[verifier::rlimit(100)]
    #[verifier::spinoff_prover]
    pub fn cal_scope(
        &self,
        temps: &TemplatesMgr,
        target_cter_id: u32,
        center_index: isize,
        target_type: TargetType,
        targets: Option<Vec<u32>>,
        scope_temp: Option<&SkillScopeTemp>,
    ) -> (r: (Vec<usize>, Vec<u32>))
        requires
            battle_wf(*self),
        ensures
            spec_cal_scope_ok(
                *self,
                temps.skill_scope_temp_mgr.temps@,
                target_cter_id,
                center_index as int,
                target_type,
                match targets {
                    Some(ts) => Some(ts@),
                    None => None,
                },
                match scope_temp {
                    Some(st) => Some(*st),
                    None => None,
                },
                r.0@,
                r.1@,
            ),
            spec_no_dup_u32(r.1@),
    {
        let ghost gts_all: Option<Seq<u32>> = match &targets {
            Some(ts) => Some(ts@),
            None => None,
        };
        let ghost gst_all: Option<SkillScopeTemp> = match &scope_temp {
            Some(st) => Some(**st),
            None => None,
        };
        let empty: (Vec<usize>, Vec<u32>) = (Vec::new(), Vec::new());
        if center_index < 0 {
            proof {
                lemma_scope_empty(
                    *self,
                    temps.skill_scope_temp_mgr.temps@,
                    target_cter_id,
                    center_index as int,
                    target_type,
                    gts_all,
                    gst_all,
                    empty.0@,
                    empty.1@,
                );
            }
            return empty;
        }
        let center = center_index as usize;
        if center >= self.tile_map.map_cells.len() {
            proof {
                lemma_scope_empty(
                    *self,
                    temps.skill_scope_temp_mgr.temps@,
                    target_cter_id,
                    center_index as int,
                    target_type,
                    gts_all,
                    gst_all,
                    empty.0@,
                    empty.1@,
                );
            }
            return empty;
        }
        let team_id = match self.find_cter_idx(target_cter_id) {
            Some(i) => self.cters[i].base_attr.team_id,
            None => {
                proof {
                    lemma_scope_empty(
                        *self,
                        temps.skill_scope_temp_mgr.temps@,
                        target_cter_id,
                        center_index as int,
                        target_type,
                        gts_all,
                        gst_all,
                        empty.0@,
                        empty.1@,
                    );
                }
                return empty;
            },
        };
        let st: &SkillScopeTemp = match scope_temp {
            Some(st) => st,
            None => {
                if targets.is_some() {
                    proof {
                        lemma_scope_empty(
                            *self,
                            temps.skill_scope_temp_mgr.temps@,
                            target_cter_id,
                            center_index as int,
                            target_type,
                            gts_all,
                            gst_all,
                            empty.0@,
                            empty.1@,
                        );
                    }
                    return empty;
                }
                match temps.skill_scope_temp_mgr().get_temp(&TRIGGER_SCOPE_NEAR_TEMP_ID) {
                    Some(st) => st,
                    None => {
                        proof {
                            lemma_scope_empty(
                                *self,
                                temps.skill_scope_temp_mgr.temps@,
                                target_cter_id,
                                center_index as int,
                                target_type,
                                gts_all,
                                gst_all,
                                empty.0@,
                                empty.1@,
                            );
                        }
                        return empty;
                    },
                }
            },
        };
        let ghost st_snap = *st;
        let r = self.match_one_scope(st, target_cter_id, team_id, center, target_type, targets);
        proof {
            lemma_scope_ok_from_match(
                *self,
                temps.skill_scope_temp_mgr.temps@,
                target_cter_id,
                center_index as int,
                target_type,
                gts_all,
                gst_all,
                st_snap,
                r.0@,
                r.1@,
            );
        }
        r
    }

    /// Matches one concrete area against the board.
    #[verifier::rlimit(100)]
    #[verifier::spinoff_prover]
    fn match_one_scope(
        &self,
        st: &SkillScopeTemp,
        target_cter_id: u32,
        team_id: u8,
        center: usize,
        target_type: TargetType,
        targets: Option<Vec<u32>>,
    ) -> (r: (Vec<usize>, Vec<u32>))
        requires
            battle_wf(*self),
            center < self.tile_map.map_cells@.len(),
            spec_cter_idx(*self, target_cter_id) is Some,
            team_id == self.cters@[spec_cter_idx(*self, target_cter_id).unwrap()].base_attr.team_id,
        ensures
            spec_scope_match(
                *self,
                *st,
                target_cter_id,
                team_id,
                center as int,
                target_type,
                (match targets {
                    Some(ts) => Some(ts@),
                    None => None,
                }),
                r.0@,
                r.1@,
            ),
            spec_no_dup_u32(r.1@),
    {
        let ghost gts_all: Option<Seq<u32>> = match &targets {
            Some(ts) => Some(ts@),
            None => None,
        };
        // the reserved global area overrides everything else
        if st.scope.len() == 0 && st.id == GLOBAL_SCOPE_TEMP_ID {
            let r = self.all_living(target_cter_id);
            proof {
                assert(spec_scope_match(
                    *self,
                    *st,
                    target_cter_id,
                    team_id,
                    center as int,
                    target_type,
                    gts_all,
                    r.0@,
                    r.1@,
                )) by {
                    reveal(spec_scope_match);
                }
            }
            return r;
        }
        // an area with no offsets and no target list matches every
        // living character; with a target list the offsets rule, and an
        // empty offset set then matches nobody
        if st.scope.len() == 0 && st.scope2d.len() == 0 && targets.is_none() {
            let v_u = self.filtered_living(target_cter_id, team_id, target_type);
            let v: Vec<usize> = Vec::new();
            proof {
                assert(spec_scope_match(
                    *self,
                    *st,
                    target_cter_id,
                    team_id,
                    center as int,
                    target_type,
                    gts_all,
                    v@,
                    v_u@,
                )) by {
                    reveal(spec_scope_match);
                }
            }
            return (v, v_u);
        }
        let r = self.scope_by_offsets(st, target_cter_id, team_id, center, target_type, targets);
        proof {
            assert(spec_scope_match(
                *self,
                *st,
                target_cter_id,
                team_id,
                center as int,
                target_type,
                gts_all,
                r.0@,
                r.1@,
            )) by {
                reveal(spec_scope_match);
            }
        }
        r
    }

    /// Enumerates an area's offsets cell by cell and collects the covered
    /// cells and their contributing occupants.
    #[verifier::rlimit(100)]
    #[verifier::spinoff_prover]
    fn scope_by_offsets(
        &self,
        st: &SkillScopeTemp,
        target_cter_id: u32,
        team_id: u8,
        center: usize,
        target_type: TargetType,
        targets: Option<Vec<u32>>,
    ) -> (r: (Vec<usize>, Vec<u32>))
        requires
            battle_wf(*self),
            center < self.tile_map.map_cells@.len(),
            spec_cter_idx(*self, target_cter_id) is Some,
            team_id == self.cters@[spec_cter_idx(*self, target_cter_id).unwrap()].base_attr.team_id,
        ensures
            forall|c: usize|
                r.0@.contains(c) == (c < self.tile_map.map_cells@.len() && spec_covered(
                    self.tile_map.map_cells@,
                    st.scope2d@,
                    center as int,
                    c as int,
                )),
            forall|id: u32|
                r.1@.contains(id) == spec_scope_user_hit(
                    *self,
                    st.scope2d@,
                    center as int,
                    (match targets {
                        Some(ts) => Some(ts@),
                        None => None,
                    }),
                    target_type,
                    target_cter_id,
                    team_id,
                    id,
                ),
            spec_no_dup_u32(r.1@),
    {
        let ghost gts: Option<Seq<u32>> = match &targets {
            Some(ts) => Some(ts@),
            None => None,
        };
        let mut v: Vec<usize> = Vec::new();
        let mut v_u: Vec<u32> = Vec::new();
        let mut ci: usize = 0;
        while ci < self.tile_map.map_cells.len()
            invariant
                battle_wf(*self),
                0 <= ci <= self.tile_map.map_cells@.len(),
                center < self.tile_map.map_cells@.len(),
                team_id == self.cters@[spec_cter_idx(*self, target_cter_id).unwrap()].base_attr.team_id,
                spec_cter_idx(*self, target_cter_id) is Some,
                gts == (match targets {
                    Some(ts) => Some(ts@),
                    None => None::<Seq<u32>>,
                }),
                forall|k: int|
                    0 <= k < v@.len() ==> (#[trigger] v@[k]) < ci && spec_covered(
                        self.tile_map.map_cells@,
                        st.scope2d@,
                        center as int,
                        v@[k] as int,
                    ),
                forall|c: int|
                    0 <= c < ci && spec_covered(
                        self.tile_map.map_cells@,
                        st.scope2d@,
                        center as int,
                        c,
                    ) ==> v@.contains(c as usize),
                forall|k: int|
                    0 <= k < v_u@.len() ==> spec_scope_user_hit(
                        *self,
                        st.scope2d@,
                        center as int,
                        gts,
                        target_type,
                        target_cter_id,
                        team_id,
                        #[trigger] v_u@[k],
                    ),
                forall|c: int|
                    0 <= c < ci && #[trigger] spec_scope_cell_hit(
                        *self,
                        st.scope2d@,
                        center as int,
                        gts,
                        target_type,
                        target_cter_id,
                        team_id,
                        c,
                    ) ==> v_u@.contains(self.tile_map.map_cells@[c].cter_id),
                spec_no_dup_u32(v_u@),
            decreases self.tile_map.map_cells@.len() - ci,
        {
            let is_covered = covered(&self.tile_map.map_cells, &st.scope2d, center, ci);
            if is_covered {
                let ghost pre_v = v@;
                v.push(ci);
                proof {
                    assert(forall|k: int| 0 <= k < pre_v.len() ==> v@[k] == #[trigger] pre_v[k]);
                    assert(v@[v@.len() - 1] == ci);
                    assert(forall|w: usize| pre_v.contains(w) ==> v@.contains(w)) by {
                        assert(forall|k: int|
                            0 <= k < pre_v.len() ==> v@[k] == #[trigger] pre_v[k]);
                    }
                }
                let in_targets = match &targets {
                    Some(ts) => contains_u32(ts, ci as u32),
                    None => true,
                };
                let id = self.tile_map.map_cells[ci].cter_id;
                if in_targets && id != 0 {
                    let keep = match self.find_cter_idx(id) {
                        Some(j) => {
                            let c = &self.cters[j];
                            c.state != BattleCterState::Die && !(target_type.excludes_self()
                                && c.base_attr.cter_id == target_cter_id) && !((
                            target_type.enemys_only() || target_type == TargetType::MapCellEnemys)
                                && c.base_attr.team_id == team_id) && !(target_type.team_only()
                                && c.base_attr.team_id != team_id)
                        },
                        None => false,
                    };
                    if keep {
                        proof {
                            reveal(spec_scope_filter);
                            reveal(spec_scope_cell_hit);
                            assert(spec_scope_cell_hit(
                                *self,
                                st.scope2d@,
                                center as int,
                                gts,
                                target_type,
                                target_cter_id,
                                team_id,
                                ci as int,
                            ));
                        }
                        if !contains_u32(&v_u, id) {
                            let ghost pre = v_u@;
                            v_u.push(id);
                            proof {
                                assert(forall|k: int|
                                    0 <= k < pre.len() ==> v_u@[k] == #[trigger] pre[k]);
                                assert(v_u@[v_u@.len() - 1] == id);
                                assert(forall|w: u32| pre.contains(w) ==> v_u@.contains(w)) by {
                                    assert(forall|k: int|
                                        0 <= k < pre.len() ==> v_u@[k] == #[trigger] pre[k]);
                                }
                                assert(spec_no_dup_u32(v_u@)) by {
                                    assert(forall|k: int|
                                        0 <= k < pre.len() ==> v_u@[k] == #[trigger] pre[k]
                                            && pre[k] != id);
                                }
                                assert(spec_scope_user_hit(
                                    *self,
                                    st.scope2d@,
                                    center as int,
                                    gts,
                                    target_type,
                                    target_cter_id,
                                    team_id,
                                    id,
                                )) by {
                                    reveal(spec_scope_user_hit);
                                    assert(spec_scope_cell_hit(
                                        *self,
                                        st.scope2d@,
                                        center as int,
                                        gts,
                                        target_type,
                                        target_cter_id,
                                        team_id,
                                        ci as int,
                                    ) && self.tile_map.map_cells@[ci as int].cter_id == id);
                                }
                            }
                        }
                    } else {
                        proof {
                            reveal(spec_scope_filter);
                            reveal(spec_scope_cell_hit);
                            assert(!spec_scope_cell_hit(
                                *self,
                                st.scope2d@,
                                center as int,
                                gts,
                                target_type,
                                target_cter_id,
                                team_id,
                                ci as int,
                            ));
                        }
                    }
                } else {
                    proof {
                        reveal(spec_scope_cell_hit);
                        assert(!spec_scope_cell_hit(
                            *self,
                            st.scope2d@,
                            center as int,
                            gts,
                            target_type,
                            target_cter_id,
                            team_id,
                            ci as int,
                        ));
                    }
                }
            } else {
                proof {
                    reveal(spec_scope_cell_hit);
                    assert(!spec_scope_cell_hit(
                        *self,
                        st.scope2d@,
                        center as int,
                        gts,
                        target_type,
                        target_cter_id,
                        team_id,
                        ci as int,
                    ));
                }
            }
            ci = ci + 1;
        }
        proof {
            assert forall|c: usize|
                v@.contains(c) == (c < self.tile_map.map_cells@.len() && spec_covered(
                    self.tile_map.map_cells@,
                    st.scope2d@,
                    center as int,
                    c as int,
                )) by {
                if v@.contains(c) {
                    let k = choose|k: int| 0 <= k < v@.len() && v@[k] == c;
                }
            }
            assert forall|id: u32|
                v_u@.contains(id) == spec_scope_user_hit(
                    *self,
                    st.scope2d@,
                    center as int,
                    gts,
                    target_type,
                    target_cter_id,
                    team_id,
                    id,
                ) by {
                if v_u@.contains(id) {
                    let k = choose|k: int| 0 <= k < v_u@.len() && v_u@[k] == id;
                }
                if spec_scope_user_hit(
                    *self,
                    st.scope2d@,
                    center as int,
                    gts,
                    target_type,
                    target_cter_id,
                    team_id,
                    id,
                ) {
                    reveal(spec_scope_user_hit);
                    let c = choose|c: int|
                        0 <= c < self.tile_map.map_cells@.len() && #[trigger] spec_scope_cell_hit(
                            *self,
                            st.scope2d@,
                            center as int,
                            gts,
                            target_type,
                            target_cter_id,
                            team_id,
                            c,
                        ) && self.tile_map.map_cells@[c].cter_id == id;
                    assert(v_u@.contains(self.tile_map.map_cells@[c].cter_id));
                }
            }
        }
        (v, v_u)
    }

    /// Every living character that passes the team and self rules, one
    /// entry each.
    #[verifier::rlimit(100)]
    fn filtered_living(&self, target_cter_id: u32, team_id: u8, target_type: TargetType) -> (r:
        Vec<u32>)
        requires
            battle_wf(*self),
        ensures
            forall|id: u32|
                r@.contains(id) == (exists|j: int|
                    0 <= j < self.cters@.len() && (#[trigger] self.cters@[j]).base_attr.cter_id
                        == id && spec_scope_filter(
                        target_type,
                        target_cter_id,
                        team_id,
                        self.cters@[j],
                    )),
            spec_no_dup_u32(r@),
    {
        proof {
            reveal(spec_scope_filter);
        }
        let mut v_u: Vec<u32> = Vec::new();
        let mut i: usize = 0;
        while i < self.cters.len()
            invariant
                battle_wf(*self),
                0 <= i <= self.cters@.len(),
                forall|k: int|
                    0 <= k < v_u@.len() ==> (exists|j: int|
                        0 <= j < self.cters@.len() && (#[trigger] self.cters@[j]).base_attr.cter_id
                            == (#[trigger] v_u@[k]) && spec_scope_filter(
                            target_type,
                            target_cter_id,
                            team_id,
                            self.cters@[j],
                        )),
                forall|j: int|
                    0 <= j < i && spec_scope_filter(
                        target_type,
                        target_cter_id,
                        team_id,
                        #[trigger] self.cters@[j],
                    ) ==> v_u@.contains(self.cters@[j].base_attr.cter_id),
                spec_no_dup_u32(v_u@),
            decreases self.cters@.len() - i,
        {
            proof {
                reveal(spec_scope_filter);
            }
            let ghost pre = v_u@;
            let c = &self.cters[i];
            let keep = c.state != BattleCterState::Die && !(target_type.excludes_self()
                && c.base_attr.cter_id == target_cter_id) && !((target_type.enemys_only()
                || target_type == TargetType::MapCellEnemys) && c.base_attr.team_id == team_id)
                && !(target_type.team_only() && c.base_attr.team_id != team_id);
            if keep && !contains_u32(&v_u, c.base_attr.cter_id) {
                v_u.push(c.base_attr.cter_id);
                proof {
                    assert(forall|k: int| 0 <= k < pre.len() ==> v_u@[k] == #[trigger] pre[k]);
                    assert(v_u@[v_u@.len() - 1] == c.base_attr.cter_id);
                    assert(forall|w: u32| pre.contains(w) ==> v_u@.contains(w)) by {
                        assert(forall|k: int|
                            0 <= k < pre.len() ==> v_u@[k] == #[trigger] pre[k]);
                    }
                    assert(spec_no_dup_u32(v_u@)) by {
                        assert(forall|k: int|
                            0 <= k < pre.len() ==> v_u@[k] == #[trigger] pre[k] && pre[k]
                                != c.base_attr.cter_id);
                    }
                }
            }
            i = i + 1;
        }
        proof {
            assert forall|id: u32|
                v_u@.contains(id) == (exists|j: int|
                    0 <= j < self.cters@.len() && (#[trigger] self.cters@[j]).base_attr.cter_id
                        == id && spec_scope_filter(
                        target_type,
                        target_cter_id,
                        team_id,
                        self.cters@[j],
                    )) by {
                if v_u@.contains(id) {
                    let k = choose|k: int| 0 <= k < v_u@.len() && v_u@[k] == id;
                }
            }
        }
        v_u
    }

    /// Every living character's id and standing cell, one entry each.
    #[verifier::rlimit(100)]
    fn all_living(&self, target_cter_id: u32) -> (r: (Vec<usize>, Vec<u32>))
        requires
            battle_wf(*self),
        ensures
            spec_all_living(*self, r.0@, r.1@),
            spec_no_dup_u32(r.1@),
    {
        let mut v: Vec<usize> = Vec::new();
        let mut v_u: Vec<u32> = Vec::new();
        let mut i: usize = 0;
        while i < self.cters.len()
            invariant
                battle_wf(*self),
                0 <= i <= self.cters@.len(),
                v@.len() == v_u@.len(),
                forall|k: int|
                    0 <= k < v_u@.len() ==> spec_living_entry(*self, #[trigger] v_u@[k], v@[k]),
                forall|j: int|
                    0 <= j < i && (#[trigger] self.cters@[j]).state != BattleCterState::Die
                        ==> v_u@.contains(self.cters@[j].base_attr.cter_id),
                forall|k: int|
                    0 <= k < v_u@.len() ==> (exists|j: int|
                        0 <= j < i && (#[trigger] self.cters@[j]).base_attr.cter_id == (
                        #[trigger] v_u@[k])),
                spec_no_dup_u32(v_u@),
            decreases self.cters@.len() - i,
        {
            let c = &self.cters[i];
            if c.state != BattleCterState::Die {
                let ghost pre = v_u@;
                let ghost pre_v = v@;
                v_u.push(c.base_attr.cter_id);
                v.push(c.get_map_cell_index());
                proof {
                    assert(forall|k: int|
                        0 <= k < pre.len() ==> v_u@[k] == #[trigger] pre[k] && v@[k] == pre_v[k]);
                    assert(v_u@[v_u@.len() - 1] == c.base_attr.cter_id);
                    assert(v@[v@.len() - 1] == spec_map_cell_index(self.cters@[i as int]));
                    assert(spec_living_entry(
                        *self,
                        v_u@[v_u@.len() - 1],
                        v@[v@.len() - 1],
                    )) by {
                        assert(0 <= i < self.cters@.len()
                            && self.cters@[i as int].base_attr.cter_id == v_u@[v_u@.len() - 1]
                            && self.cters@[i as int].state != BattleCterState::Die && v@[v@.len()
                            - 1] == spec_map_cell_index(self.cters@[i as int]));
                    }
                    assert(forall|w: u32| pre.contains(w) ==> v_u@.contains(w)) by {
                        assert(forall|k: int|
                            0 <= k < pre.len() ==> v_u@[k] == #[trigger] pre[k]);
                    }
                    assert(spec_no_dup_u32(v_u@)) by {
                        assert forall|k: int, l: int|
                            0 <= k < l < v_u@.len() implies v_u@[k] != v_u@[l] by {
                            if l == v_u@.len() - 1 {
                                let j = choose|j: int|
                                    0 <= j < i && self.cters@[j].base_attr.cter_id == pre[k];
                                assert(self.cters@[j].base_attr.cter_id
                                    != self.cters@[i as int].base_attr.cter_id);
                            }
                        }
                    }
                }
            }
            i = i + 1;
        }
        proof {
            assert forall|id: u32|
                v_u@.contains(id) == (exists|j: int|
                    0 <= j < self.cters@.len() && (#[trigger] self.cters@[j]).base_attr.cter_id
                        == id && self.cters@[j].state != BattleCterState::Die) by {
                if v_u@.contains(id) {
                    let k = choose|k: int| 0 <= k < v_u@.len() && v_u@[k] == id;
                    assert(spec_living_entry(*self, v_u@[k], v@[k]));
                }
            }
        }
        (v, v_u)
    }
}

/// The list names no character twice.
pub open spec fn spec_no_dup_u32(s: Seq<u32>) -> bool {
    forall|k: int, l: int| 0 <= k < l < s.len() ==> s[k] != s[l]
}

/// Some living character carries this id and stands on this cell.
pub open spec fn spec_living_entry(b: BattleData, id: u32, cell: usize) -> bool {
    exists|j: int|
        0 <= j < b.cters@.len() && (#[trigger] b.cters@[j]).base_attr.cter_id == id
            && b.cters@[j].state != BattleCterState::Die && cell == spec_map_cell_index(
            b.cters@[j],
        )
}

/// The lists name every living character once: the ids, and pointwise
/// their standing cells.
pub open spec fn spec_all_living(b: BattleData, v: Seq<usize>, v_u: Seq<u32>) -> bool {
    &&& v.len() == v_u.len()
    &&& forall|id: u32|
        v_u.contains(id) == (exists|j: int|
            0 <= j < b.cters@.len() && (#[trigger] b.cters@[j]).base_attr.cter_id == id
                && b.cters@[j].state != BattleCterState::Die)
    &&& forall|k: int|
        0 <= k < v_u.len() ==> spec_living_entry(b, #[trigger] v_u[k], v[k])
}

/// What `cal_scope` promises of its result, mode by mode.
#[verifier::opaque]
pub open spec fn spec_cal_scope_ok(
    b: BattleData,
    scope_rows: Seq<SkillScopeTemp>,
    target_cter_id: u32,
    center_index: int,
    target_type: TargetType,
    targets: Option<Seq<u32>>,
    scope_temp: Option<SkillScopeTemp>,
    v: Seq<usize>,
    v_u: Seq<u32>,
) -> bool {
    // a missing origin, an unknown origin character, or no usable area
    // yields an empty match
    if center_index < 0 || center_index >= b.tile_map.map_cells@.len() || spec_cter_idx(
        b,
        target_cter_id,
    ) is None {
        v.len() == 0 && v_u.len() == 0
    } else {
        let team_id = b.cters@[spec_cter_idx(b, target_cter_id).unwrap()].base_attr.team_id;
        match scope_temp {
            None => if targets is Some {
                v.len() == 0 && v_u.len() == 0
            } else {
                match crate::templates::spec_find_scope(scope_rows, TRIGGER_SCOPE_NEAR_TEMP_ID) {
                    Some(st) => spec_scope_match(
                        b,
                        st,
                        target_cter_id,
                        team_id,
                        center_index,
                        target_type,
                        None,
                        v,
                        v_u,
                    ),
                    None => v.len() == 0 && v_u.len() == 0,
                }
            },
            Some(st) => spec_scope_match(
                b,
                st,
                target_cter_id,
                team_id,
                center_index,
                target_type,
                targets,
                v,
                v_u,
            ),
        }
    }
}

/// What matching one concrete area yields.
#[verifier::opaque]
pub open spec fn spec_scope_match(
    b: BattleData,
    st: SkillScopeTemp,
    target_cter_id: u32,
    team_id: u8,
    center: int,
    target_type: TargetType,
    targets: Option<Seq<u32>>,
    v: Seq<usize>,
    v_u: Seq<u32>,
) -> bool {
    if st.scope@.len() == 0 && st.id == GLOBAL_SCOPE_TEMP_ID {
        spec_all_living(b, v, v_u)
    } else if st.scope@.len() == 0 && st.scope2d@.len() == 0 && targets is None {
        v.len() == 0 && (forall|id: u32|
            v_u.contains(id) == (exists|j: int|
                0 <= j < b.cters@.len() && (#[trigger] b.cters@[j]).base_attr.cter_id == id
                    && spec_scope_filter(target_type, target_cter_id, team_id, b.cters@[j])))
    } else {
        &&& forall|c: usize|
            v.contains(c) == (c < b.tile_map.map_cells@.len() && spec_covered(
                b.tile_map.map_cells@,
                st.scope2d@,
                center,
                c as int,
            ))
        &&& forall|id: u32|
            v_u.contains(id) == spec_scope_user_hit(
                b,
                st.scope2d@,
                center,
                targets,
                target_type,
                target_cter_id,
                team_id,
                id,
            )
    }
}

/// An empty match is right whenever no area can be resolved: the origin
/// is off the board, the origin character is unknown, targets came
/// without an area, or the fallback ring is not in the catalog.
pub proof fn lemma_scope_empty(
    b: BattleData,
    scope_rows: Seq<SkillScopeTemp>,
    target_cter_id: u32,
    center_index: int,
    target_type: TargetType,
    targets: Option<Seq<u32>>,
    scope_temp: Option<SkillScopeTemp>,
    v: Seq<usize>,
    v_u: Seq<u32>,
)
    requires
        v.len() == 0,
        v_u.len() == 0,
        center_index < 0 || center_index >= b.tile_map.map_cells@.len() || spec_cter_idx(
            b,
            target_cter_id,
        ) is None || (scope_temp is None && targets is Some) || (scope_temp is None
            && crate::templates::spec_find_scope(scope_rows, TRIGGER_SCOPE_NEAR_TEMP_ID) is None),
    ensures
        spec_cal_scope_ok(
            b,
            scope_rows,
            target_cter_id,
            center_index,
            target_type,
            targets,
            scope_temp,
            v,
            v_u,
        ),
{
    reveal(spec_cal_scope_ok);
}

/// A concrete-area match is right for the whole resolver whenever the
/// area is the one the mode selection picks.
pub proof fn lemma_scope_ok_from_match(
    b: BattleData,
    scope_rows: Seq<SkillScopeTemp>,
    target_cter_id: u32,
    center_index: int,
    target_type: TargetType,
    targets: Option<Seq<u32>>,
    scope_temp: Option<SkillScopeTemp>,
    st: SkillScopeTemp,
    v: Seq<usize>,
    v_u: Seq<u32>,
)
    requires
        0 <= center_index < b.tile_map.map_cells@.len(),
        spec_cter_idx(b, target_cter_id) is Some,
        match scope_temp {
            Some(given) => given == st,
            None => targets is None && crate::templates::spec_find_scope(
                scope_rows,
                TRIGGER_SCOPE_NEAR_TEMP_ID,
            ) == Some(st),
        },
        spec_scope_match(
            b,
            st,
            target_cter_id,
            b.cters@[spec_cter_idx(b, target_cter_id).unwrap()].base_attr.team_id,
            center_index,
            target_type,
            targets,
            v,
            v_u,
        ),
    ensures
        spec_cal_scope_ok(
            b,
            scope_rows,
            target_cter_id,
            center_index,
            target_type,
            targets,
            scope_temp,
            v,
            v_u,
        ),
{
    reveal(spec_cal_scope_ok);
}

} // verus!

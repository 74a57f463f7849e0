//! Read-only catalog of skill, buff, scope, character, cell, board and
//! constant definitions, keyed by numeric id (by name for constants).
//!
//! The engine queries the catalog and never mutates it; every entry point
//! takes the store as an explicit read-only handle.  Lookups return the
//! first entry carrying the asked-for id, and nothing when no entry does.

use vstd::prelude::*;

use crate::parse::parse_i32;
use crate::parse::parse_u32;

verus! {

/// Marker for the row types the template store holds.
pub trait Template {
}

/// What every template manager offers besides its typed lookups.
pub trait TemplateMgrTrait {
    fn is_empty(&self) -> bool;

    fn clear(&mut self);
}

// ---------------------------------------------------------------------------
// Row types.
// ---------------------------------------------------------------------------

/// One buff definition.  `par1` to `par5` are behaviour parameters whose
/// meaning depends on `function_id`; a buff with both `trigger_times` and
/// `keep_time` configured as zero is permanent.
#[derive(Clone, Copy, Debug, PartialEq, Eq, Structural)]
pub struct BuffTemp {
    pub id: u32,
    pub function_id: u32,
    pub target: u32,
    pub par1: u32,
    pub par2: u32,
    pub par3: u32,
    pub par4: u32,
    pub par5: u32,
    pub scope: u32,
    pub keep_time: u32,
    pub trigger_times: u32,
}

impl Template for BuffTemp {
}

/// One skill definition.
#[derive(Clone, Copy, Debug, PartialEq, Eq, Structural)]
pub struct SkillTemp {
    pub id: u32,
    pub function_id: u32,
    pub skill_judge: u32,
    pub target: u32,
    pub cd: u32,
    pub consume_type: u32,
    pub consume_value: u32,
    pub scope: u32,
    pub par1: u32,
    pub par2: u32,
    pub par3: u32,
    pub buff: u32,
}

impl Template for SkillTemp {
}

/// One skill-use condition.
#[derive(Clone, Copy, Debug, PartialEq, Eq, Structural)]
pub struct SkillJudgeTemp {
    pub id: u32,
    pub target: u32,
    pub par1: u32,
}

impl Template for SkillJudgeTemp {
}

/// Score awarded for finishing a battle at a given rank.
#[derive(Clone, Copy, Debug, PartialEq, Eq, Structural)]
pub struct SummaryAwardTemp {
    pub id: u32,
    pub rank: u32,
    pub score: i32,
}

impl Template for SummaryAwardTemp {
}

/// One tile definition.
#[derive(Clone, Debug)]
pub struct CellTemp {
    pub id: u32,
    pub buff_id: Vec<u32>,
    pub cell_type: u32,
    pub rare: u32,
    pub is_cter: u32,
}

impl Template for CellTemp {
}

/// Copies a list of ids element by element.
pub fn clone_vec_u32(v: &Vec<u32>) -> (r: Vec<u32>)
    ensures
        r@ == v@,
{
    let mut r: Vec<u32> = Vec::new();
    let mut i: usize = 0;
    while i < v.len()
        invariant
            0 <= i <= v@.len(),
            r@ == v@.subrange(0, i as int),
        decreases v@.len() - i,
    {
        r.push(v[i]);
        proof {
            assert(r@ =~= v@.subrange(0, i as int + 1));
        }
        i = i + 1;
    }
    proof {
        assert(v@.subrange(0, v@.len() as int) =~= v@);
    }
    r
}

/// One playable character definition.
#[derive(Debug)]
pub struct CharacterTemp {
    pub id: u32,
    pub hp: u32,
    pub attack: u32,
    pub defence: u32,
    pub energy: u32,
    pub skills: Vec<u32>,
    pub lock_skills: Vec<u32>,
    pub is_dlc: u8,
    pub is_init: u8,
    pub usable_skill_count: u8,
    pub usable_item_count: u8,
}

impl Template for CharacterTemp {
}

/// Field-for-field sameness of two character rows, lists compared by
/// their contents.
pub open spec fn character_row_eq(a: CharacterTemp, b: CharacterTemp) -> bool {
    &&& a.id == b.id
    &&& a.hp == b.hp
    &&& a.attack == b.attack
    &&& a.defence == b.defence
    &&& a.energy == b.energy
    &&& a.skills@ == b.skills@
    &&& a.lock_skills@ == b.lock_skills@
    &&& a.is_dlc == b.is_dlc
    &&& a.is_init == b.is_init
    &&& a.usable_skill_count == b.usable_skill_count
    &&& a.usable_item_count == b.usable_item_count
}

/// The rows of a load flagged as starting characters, in load order.
pub open spec fn spec_init_rows(rows: Seq<CharacterTemp>) -> Seq<CharacterTemp>
    decreases rows.len(),
{
    if rows.len() == 0 {
        Seq::empty()
    } else {
        let rest = spec_init_rows(rows.drop_last());
        if rows.last().is_init == 1 {
            rest.push(rows.last())
        } else {
            rest
        }
    }
}

impl Clone for CharacterTemp {
    /// A copy that matches the row field for field.
    fn clone(&self) -> (r: Self)
        ensures
            character_row_eq(r, *self),
    {
        CharacterTemp {
            id: self.id,
            hp: self.hp,
            attack: self.attack,
            defence: self.defence,
            energy: self.energy,
            skills: clone_vec_u32(&self.skills),
            lock_skills: clone_vec_u32(&self.lock_skills),
            is_dlc: self.is_dlc,
            is_init: self.is_init,
            usable_skill_count: self.usable_skill_count,
            usable_item_count: self.usable_item_count,
        }
    }
}

impl CharacterTemp {
    /// The character definition's id.
    pub fn get_id(&self) -> (r: u32)
        ensures
            r == self.id,
    {
        self.id
    }
}

/// One named configuration value, kept as the string it was written as.
#[derive(Clone, Debug)]
pub struct ConstantTemp {
    pub id: String,
    pub value: String,
}

impl Template for ConstantTemp {
}

/// A straight run of relative offsets.
#[derive(Clone, Debug)]
pub struct DirectionTemp {
    pub direction: Vec<i64>,
}

/// A planar coordinate offset.
#[derive(Clone, Copy, Debug, PartialEq, Eq, Structural)]
pub struct CoordTemp {
    pub x: i64,
    pub y: i64,
}

/// One direction of planar offsets.
#[derive(Clone, Debug)]
pub struct Direction2dTemp {
    pub direction2d: Vec<CoordTemp>,
}

/// An area definition: relative board offsets from an origin cell.  Empty
/// offsets mean the whole board.
#[derive(Clone, Debug)]
pub struct SkillScopeTemp {
    pub id: u32,
    pub scope: Vec<DirectionTemp>,
    pub scope2d: Vec<Direction2dTemp>,
}

impl Template for SkillScopeTemp {
}

/// How many cells of one tile id a board layout holds.
#[derive(Clone, Copy, Debug, PartialEq, Eq, Structural)]
pub struct CellType {
    pub cell_id: u32,
    pub count: u32,
}

/// A fixed world cell of a board layout.
#[derive(Clone, Debug)]
pub struct WorldCell {
    pub name: String,
    pub x_index: u32,
    pub y_index: u32,
    pub buff_id: Vec<u32>,
}

/// One board layout.
#[derive(Clone, Debug)]
pub struct TileMapTemp {
    pub id: u32,
    pub map: Vec<u32>,
    pub cell_type: Vec<CellType>,
    pub world_cell: Vec<WorldCell>,
    pub map_type: u8,
}

impl Template for TileMapTemp {
}

// ---------------------------------------------------------------------------
// Managers.  Each keeps its rows in the order they were loaded; a lookup
// returns the first row with the asked-for id.
// ---------------------------------------------------------------------------

/// First buff row carrying `id`, if any.
pub open spec fn spec_find_buff(s: Seq<BuffTemp>, id: u32) -> Option<BuffTemp>
    decreases s.len(),
{
    if s.len() == 0 {
        Option::None
    } else if s[0].id == id {
        Option::Some(s[0])
    } else {
        spec_find_buff(s.drop_first(), id)
    }
}

/// Buff definitions.
#[derive(Clone, Debug, Default)]
pub struct BuffTempMgr {
    pub temps: Vec<BuffTemp>,
}

impl BuffTempMgr {
    /// The first loaded buff row with this id, or nothing.
    pub fn get_temp(&self, id: &u32) -> (r: Option<&BuffTemp>)
        ensures
            match r {
                Some(t) => spec_find_buff(self.temps@, *id) == Option::Some(*t),
                None => spec_find_buff(self.temps@, *id) is None,
            },
    {
        proof {
            assert(self.temps@.subrange(0, self.temps@.len() as int) =~= self.temps@);
        }
        let mut i: usize = 0;
        while i < self.temps.len()
            invariant
                0 <= i <= self.temps@.len(),
                spec_find_buff(self.temps@, *id) == spec_find_buff(
                    self.temps@.subrange(i as int, self.temps@.len() as int),
                    *id,
                ),
            decreases self.temps@.len() - i,
        {
            proof {
                let rest = self.temps@.subrange(i as int, self.temps@.len() as int);
                assert(rest.drop_first() =~= self.temps@.subrange(
                    i as int + 1,
                    self.temps@.len() as int,
                ));
                assert(rest[0] == self.temps@[i as int]);
            }
            if self.temps[i].id == *id {
                return Some(&self.temps[i]);
            }
            i = i + 1;
        }
        proof {
            assert(self.temps@.subrange(i as int, self.temps@.len() as int).len() == 0);
        }
        None
    }

    /// Loads rows, keeping their order after what is already stored.
    pub fn init(&mut self, t: Vec<BuffTemp>)
        ensures
            final(self).temps@ == old(self).temps@ + t@,
    {
        let mut t = t;
        self.temps.append(&mut t);
    }
}

impl TemplateMgrTrait for BuffTempMgr {
    fn is_empty(&self) -> (r: bool)
        ensures
            r == (self.temps@.len() == 0),
    {
        self.temps.len() == 0
    }

    fn clear(&mut self)
        ensures
            final(self).temps@.len() == 0,
    {
        self.temps.clear();
    }
}

/// First skill row carrying `id`, if any.
pub open spec fn spec_find_skill(s: Seq<SkillTemp>, id: u32) -> Option<SkillTemp>
    decreases s.len(),
{
    if s.len() == 0 {
        Option::None
    } else if s[0].id == id {
        Option::Some(s[0])
    } else {
        spec_find_skill(s.drop_first(), id)
    }
}

/// Skill definitions.
#[derive(Clone, Debug, Default)]
pub struct SkillTempMgr {
    pub temps: Vec<SkillTemp>,
}

impl SkillTempMgr {
    /// The first loaded skill row with this id, or nothing.
    pub fn get_temp(&self, id: &u32) -> (r: Option<&SkillTemp>)
        ensures
            match r {
                Some(t) => spec_find_skill(self.temps@, *id) == Option::Some(*t),
                None => spec_find_skill(self.temps@, *id) is None,
            },
    {
        proof {
            assert(self.temps@.subrange(0, self.temps@.len() as int) =~= self.temps@);
        }
        let mut i: usize = 0;
        while i < self.temps.len()
            invariant
                0 <= i <= self.temps@.len(),
                spec_find_skill(self.temps@, *id) == spec_find_skill(
                    self.temps@.subrange(i as int, self.temps@.len() as int),
                    *id,
                ),
            decreases self.temps@.len() - i,
        {
            proof {
                let rest = self.temps@.subrange(i as int, self.temps@.len() as int);
                assert(rest.drop_first() =~= self.temps@.subrange(
                    i as int + 1,
                    self.temps@.len() as int,
                ));
                assert(rest[0] == self.temps@[i as int]);
            }
            if self.temps[i].id == *id {
                return Some(&self.temps[i]);
            }
            i = i + 1;
        }
        proof {
            assert(self.temps@.subrange(i as int, self.temps@.len() as int).len() == 0);
        }
        None
    }

    /// Loads rows, keeping their order after what is already stored.
    pub fn init(&mut self, t: Vec<SkillTemp>)
        ensures
            final(self).temps@ == old(self).temps@ + t@,
    {
        let mut t = t;
        self.temps.append(&mut t);
    }
}

impl TemplateMgrTrait for SkillTempMgr {
    fn is_empty(&self) -> (r: bool)
        ensures
            r == (self.temps@.len() == 0),
    {
        self.temps.len() == 0
    }

    fn clear(&mut self)
        ensures
            final(self).temps@.len() == 0,
    {
        self.temps.clear();
    }
}

/// First judge row carrying `id`, if any.
pub open spec fn spec_find_skill_judge(s: Seq<SkillJudgeTemp>, id: u32) -> Option<SkillJudgeTemp>
    decreases s.len(),
{
    if s.len() == 0 {
        Option::None
    } else if s[0].id == id {
        Option::Some(s[0])
    } else {
        spec_find_skill_judge(s.drop_first(), id)
    }
}

/// Skill-use conditions.
#[derive(Clone, Debug, Default)]
pub struct SkillJudgeTempMgr {
    pub temps: Vec<SkillJudgeTemp>,
}

impl SkillJudgeTempMgr {
    /// The first loaded judge row with this id, or nothing.
    pub fn get_temp(&self, id: &u32) -> (r: Option<&SkillJudgeTemp>)
        ensures
            match r {
                Some(t) => spec_find_skill_judge(self.temps@, *id) == Option::Some(*t),
                None => spec_find_skill_judge(self.temps@, *id) is None,
            },
    {
        proof {
            assert(self.temps@.subrange(0, self.temps@.len() as int) =~= self.temps@);
        }
        let mut i: usize = 0;
        while i < self.temps.len()
            invariant
                0 <= i <= self.temps@.len(),
                spec_find_skill_judge(self.temps@, *id) == spec_find_skill_judge(
                    self.temps@.subrange(i as int, self.temps@.len() as int),
                    *id,
                ),
            decreases self.temps@.len() - i,
        {
            proof {
                let rest = self.temps@.subrange(i as int, self.temps@.len() as int);
                assert(rest.drop_first() =~= self.temps@.subrange(
                    i as int + 1,
                    self.temps@.len() as int,
                ));
                assert(rest[0] == self.temps@[i as int]);
            }
            if self.temps[i].id == *id {
                return Some(&self.temps[i]);
            }
            i = i + 1;
        }
        proof {
            assert(self.temps@.subrange(i as int, self.temps@.len() as int).len() == 0);
        }
        None
    }

    /// Loads rows, keeping their order after what is already stored.
    pub fn init(&mut self, t: Vec<SkillJudgeTemp>)
        ensures
            final(self).temps@ == old(self).temps@ + t@,
    {
        let mut t = t;
        self.temps.append(&mut t);
    }
}

impl TemplateMgrTrait for SkillJudgeTempMgr {
    fn is_empty(&self) -> (r: bool)
        ensures
            r == (self.temps@.len() == 0),
    {
        self.temps.len() == 0
    }

    fn clear(&mut self)
        ensures
            final(self).temps@.len() == 0,
    {
        self.temps.clear();
    }
}

/// First award row carrying `rank`, if any.
pub open spec fn spec_find_award(s: Seq<SummaryAwardTemp>, rank: u32) -> Option<SummaryAwardTemp>
    decreases s.len(),
{
    if s.len() == 0 {
        Option::None
    } else if s[0].rank == rank {
        Option::Some(s[0])
    } else {
        spec_find_award(s.drop_first(), rank)
    }
}

/// Rank-based score rewards.
#[derive(Clone, Debug, Default)]
pub struct SummaryAwardTempMgr {
    pub temps: Vec<SummaryAwardTemp>,
}

impl SummaryAwardTempMgr {
    /// Score of the first loaded award row for this rank, or nothing.
    pub fn get_score_by_rank(&self, rank: u8) -> (r: Option<i32>)
        ensures
            match r {
                Some(v) => spec_find_award(self.temps@, rank as u32) matches Option::Some(t)
                    && v == t.score,
                None => spec_find_award(self.temps@, rank as u32) is None,
            },
    {
        let rank32 = rank as u32;
        proof {
            assert(self.temps@.subrange(0, self.temps@.len() as int) =~= self.temps@);
        }
        let mut i: usize = 0;
        while i < self.temps.len()
            invariant
                0 <= i <= self.temps@.len(),
                rank32 == rank as u32,
                spec_find_award(self.temps@, rank as u32) == spec_find_award(
                    self.temps@.subrange(i as int, self.temps@.len() as int),
                    rank as u32,
                ),
            decreases self.temps@.len() - i,
        {
            proof {
                let rest = self.temps@.subrange(i as int, self.temps@.len() as int);
                assert(rest.drop_first() =~= self.temps@.subrange(
                    i as int + 1,
                    self.temps@.len() as int,
                ));
                assert(rest[0] == self.temps@[i as int]);
            }
            if self.temps[i].rank == rank32 {
                return Some(self.temps[i].score);
            }
            i = i + 1;
        }
        proof {
            assert(self.temps@.subrange(i as int, self.temps@.len() as int).len() == 0);
        }
        None
    }

    /// Loads rows, keeping their order after what is already stored.
    pub fn init(&mut self, t: Vec<SummaryAwardTemp>)
        ensures
            final(self).temps@ == old(self).temps@ + t@,
    {
        let mut t = t;
        self.temps.append(&mut t);
    }
}

impl TemplateMgrTrait for SummaryAwardTempMgr {
    fn is_empty(&self) -> (r: bool)
        ensures
            r == (self.temps@.len() == 0),
    {
        self.temps.len() == 0
    }

    fn clear(&mut self)
        ensures
            final(self).temps@.len() == 0,
    {
        self.temps.clear();
    }
}

/// Index of the first cell row carrying `id`, if any.
pub open spec fn spec_find_cell_idx(s: Seq<CellTemp>, id: u32) -> Option<int> {
    if exists|i: int| 0 <= i < s.len() && s[i].id == id {
        Option::Some(choose|i: int| 0 <= i < s.len() && s[i].id == id)
    } else {
        Option::None
    }
}

/// Tile definitions.
#[derive(Clone, Debug, Default)]
pub struct CellTempMgr {
    pub temps: Vec<CellTemp>,
}

impl CellTempMgr {
    /// A loaded cell row with this id, or nothing when none carries it.
    pub fn get_temp(&self, id: &u32) -> (r: Option<&CellTemp>)
        ensures
            match r {
                Some(t) => t.id == *id && (exists|i: int|
                    0 <= i < self.temps@.len() && self.temps@[i] == *t),
                None => forall|i: int|
                    0 <= i < self.temps@.len() ==> (#[trigger] self.temps@[i]).id != *id,
            },
    {
        let mut i: usize = 0;
        while i < self.temps.len()
            invariant
                0 <= i <= self.temps@.len(),
                forall|j: int| 0 <= j < i ==> (#[trigger] self.temps@[j]).id != *id,
            decreases self.temps@.len() - i,
        {
            if self.temps[i].id == *id {
                return Some(&self.temps[i]);
            }
            i = i + 1;
        }
        None
    }

    /// Loads rows, keeping their order after what is already stored.
    pub fn init(&mut self, t: Vec<CellTemp>)
        ensures
            final(self).temps@ == old(self).temps@ + t@,
    {
        let mut t = t;
        self.temps.append(&mut t);
    }
}

impl TemplateMgrTrait for CellTempMgr {
    fn is_empty(&self) -> (r: bool)
        ensures
            r == (self.temps@.len() == 0),
    {
        self.temps.len() == 0
    }

    fn clear(&mut self)
        ensures
            final(self).temps@.len() == 0,
    {
        self.temps.clear();
    }
}

/// Character definitions.
#[derive(Clone, Debug, Default)]
pub struct CharacterTempMgr {
    pub temps: Vec<CharacterTemp>,
    pub init_temps: Vec<CharacterTemp>,
}

impl CharacterTempMgr {
    /// The rows flagged as selectable starting characters.
    pub fn get_init_character(&self) -> (r: &Vec<CharacterTemp>)
        ensures
            r@ == self.init_temps@,
    {
        &self.init_temps
    }

    /// A loaded character row with this id, or nothing when none carries it.
    pub fn get_temp_ref(&self, id: &u32) -> (r: Option<&CharacterTemp>)
        ensures
            match r {
                Some(t) => t.id == *id && (exists|i: int|
                    0 <= i < self.temps@.len() && self.temps@[i] == *t),
                None => forall|i: int|
                    0 <= i < self.temps@.len() ==> (#[trigger] self.temps@[i]).id != *id,
            },
    {
        let mut i: usize = 0;
        while i < self.temps.len()
            invariant
                0 <= i <= self.temps@.len(),
                forall|j: int| 0 <= j < i ==> (#[trigger] self.temps@[j]).id != *id,
            decreases self.temps@.len() - i,
        {
            if self.temps[i].id == *id {
                return Some(&self.temps[i]);
            }
            i = i + 1;
        }
        None
    }

    /// Loads rows after what is already stored; those flagged `is_init`
    /// also join the starting list, as a matching copy, in load order.
    pub fn init(&mut self, t: Vec<CharacterTemp>)
        ensures
            final(self).temps@.len() == old(self).temps@.len() + t@.len(),
            forall|i: int|
                0 <= i < old(self).temps@.len() ==> final(self).temps@[i] == old(
                    self,
                ).temps@[i],
            forall|i: int|
                0 <= i < t@.len() ==> character_row_eq(
                    #[trigger] final(self).temps@[old(self).temps@.len() + i],
                    t@[i],
                ),
            final(self).init_temps@.len() == old(self).init_temps@.len() + spec_init_rows(
                t@,
            ).len(),
            forall|i: int|
                0 <= i < old(self).init_temps@.len() ==> final(self).init_temps@[i] == old(
                    self,
                ).init_temps@[i],
            forall|i: int|
                0 <= i < spec_init_rows(t@).len() ==> character_row_eq(
                    #[trigger] final(self).init_temps@[old(self).init_temps@.len() + i],
                    spec_init_rows(t@)[i],
                ),
    {
        let mut t = t;
        let ghost input = t@;
        let ghost orig = self.temps@;
        let ghost orig_init = self.init_temps@;
        let total = t.len();
        proof {
            assert(input.len() == total);
            assert(input.take(0) =~= Seq::<CharacterTemp>::empty());
        }
        let mut idx: usize = 0;
        while t.len() > 0
            invariant
                self.temps@.len() == orig.len() + idx,
                idx + t@.len() == input.len(),
                forall|i: int| 0 <= i < orig.len() ==> self.temps@[i] == orig[i],
                forall|i: int|
                    0 <= i < idx ==> character_row_eq(
                        #[trigger] self.temps@[orig.len() + i],
                        input[i],
                    ),
                forall|i: int| 0 <= i < t@.len() ==> t@[i] == input[idx + i],
                input.len() <= usize::MAX,
                self.init_temps@.len() == orig_init.len() + spec_init_rows(
                    input.take(idx as int),
                ).len(),
                forall|i: int|
                    0 <= i < orig_init.len() ==> self.init_temps@[i] == orig_init[i],
                forall|i: int|
                    0 <= i < spec_init_rows(input.take(idx as int)).len() ==> character_row_eq(
                        #[trigger] self.init_temps@[orig_init.len() + i],
                        spec_init_rows(input.take(idx as int))[i],
                    ),
            decreases t@.len(),
        {
            let row = t.remove(0);
            proof {
                assert(row == input[idx as int]);
                assert(input.take(idx as int + 1).drop_last() =~= input.take(idx as int));
                assert(input.take(idx as int + 1).last() == input[idx as int]);
            }
            if row.is_init == 1 {
                self.init_temps.push(row.clone());
            }
            self.temps.push(row);
            idx = idx + 1;
        }
        proof {
            assert(input.take(input.len() as int) =~= input);
        }
    }
}

impl TemplateMgrTrait for CharacterTempMgr {
    fn is_empty(&self) -> (r: bool)
        ensures
            r == (self.temps@.len() == 0),
    {
        self.temps.len() == 0
    }

    fn clear(&mut self)
        ensures
            final(self).temps@.len() == 0,
    {
        self.temps.clear();
        self.init_temps.clear();
    }
}

/// First constant row whose name reads `name`, if any.
pub open spec fn spec_find_constant(s: Seq<ConstantTemp>, name: Seq<char>) -> Option<ConstantTemp>
    decreases s.len(),
{
    if s.len() == 0 {
        Option::None
    } else if s[0].id@ == name {
        Option::Some(s[0])
    } else {
        spec_find_constant(s.drop_first(), name)
    }
}

/// The named constant's value read as an unsigned decimal number, or
/// `default` when the constant is missing or does not read as one.
#[verifier::opaque]
pub open spec fn spec_const_u32(s: Seq<ConstantTemp>, name: Seq<char>, default: u32) -> int {
    match spec_find_constant(s, name) {
        Option::Some(t) => if t.value@.len() > 0 && crate::parse::all_digits(t.value@)
            && crate::parse::dec_value(t.value@) <= u32::MAX {
            crate::parse::dec_value(t.value@)
        } else {
            default as int
        },
        Option::None => default as int,
    }
}

/// The named constant's value read as a signed decimal number, or
/// `default` when the constant is missing or does not read as one.
#[verifier::opaque]
pub open spec fn spec_const_i32(s: Seq<ConstantTemp>, name: Seq<char>, default: i32) -> int {
    match spec_find_constant(s, name) {
        Option::Some(t) => match crate::parse::spec_parse_i32(t.value@) {
            Option::Some(v) => v,
            Option::None => default as int,
        },
        Option::None => default as int,
    }
}

/// Named configuration values.
#[derive(Clone, Debug, Default)]
pub struct ConstantTempMgr {
    pub temps: Vec<ConstantTemp>,
}

impl ConstantTempMgr {
    /// The first loaded constant with this name, or nothing.
    pub fn get_temp(&self, name: &String) -> (r: Option<&ConstantTemp>)
        ensures
            match r {
                Some(t) => spec_find_constant(self.temps@, name@) == Option::Some(*t),
                None => spec_find_constant(self.temps@, name@) is None,
            },
    {
        proof {
            assert(self.temps@.subrange(0, self.temps@.len() as int) =~= self.temps@);
        }
        let mut i: usize = 0;
        while i < self.temps.len()
            invariant
                0 <= i <= self.temps@.len(),
                spec_find_constant(self.temps@, name@) == spec_find_constant(
                    self.temps@.subrange(i as int, self.temps@.len() as int),
                    name@,
                ),
            decreases self.temps@.len() - i,
        {
            proof {
                let rest = self.temps@.subrange(i as int, self.temps@.len() as int);
                assert(rest.drop_first() =~= self.temps@.subrange(
                    i as int + 1,
                    self.temps@.len() as int,
                ));
                assert(rest[0] == self.temps@[i as int]);
            }
            if self.temps[i].id == *name {
                return Some(&self.temps[i]);
            }
            i = i + 1;
        }
        proof {
            assert(self.temps@.subrange(i as int, self.temps@.len() as int).len() == 0);
        }
        None
    }

    /// The named constant read as an unsigned number, or `default` when the
    /// constant is missing or does not parse.
    pub fn get_value_u32(&self, name: &String, default: u32) -> (r: u32)
        ensures
            r == spec_const_u32(self.temps@, name@, default),
    {
        proof {
            reveal(spec_const_u32);
        }
        match self.get_temp(name) {
            Some(t) => {
                match parse_u32(t.value.as_str()) {
                    Some(v) => v,
                    None => default,
                }
            },
            None => default,
        }
    }

    /// The named constant read as a signed number, or `default` when the
    /// constant is missing or does not parse.
    pub fn get_value_i32(&self, name: &String, default: i32) -> (r: i32)
        ensures
            r == spec_const_i32(self.temps@, name@, default),
    {
        proof {
            reveal(spec_const_i32);
        }
        match self.get_temp(name) {
            Some(t) => {
                match parse_i32(t.value.as_str()) {
                    Some(v) => v,
                    None => default,
                }
            },
            None => default,
        }
    }

    /// Loads rows, keeping their order after what is already stored.
    pub fn init(&mut self, t: Vec<ConstantTemp>)
        ensures
            final(self).temps@ == old(self).temps@ + t@,
    {
        let mut t = t;
        self.temps.append(&mut t);
    }
}

impl TemplateMgrTrait for ConstantTempMgr {
    fn is_empty(&self) -> (r: bool)
        ensures
            r == (self.temps@.len() == 0),
    {
        self.temps.len() == 0
    }

    fn clear(&mut self)
        ensures
            final(self).temps@.len() == 0,
    {
        self.temps.clear();
    }
}

/// First area row carrying `id`, if any.
pub open spec fn spec_find_scope(s: Seq<SkillScopeTemp>, id: u32) -> Option<SkillScopeTemp>
    decreases s.len(),
{
    if s.len() == 0 {
        Option::None
    } else if s[0].id == id {
        Option::Some(s[0])
    } else {
        spec_find_scope(s.drop_first(), id)
    }
}

/// Area definitions.
#[derive(Clone, Debug, Default)]
pub struct SkillScopeTempMgr {
    pub temps: Vec<SkillScopeTemp>,
}

impl SkillScopeTempMgr {
    /// The first loaded area row with this id, or nothing.
    pub fn get_temp(&self, id: &u32) -> (r: Option<&SkillScopeTemp>)
        ensures
            match r {
                Some(t) => spec_find_scope(self.temps@, *id) == Option::Some(*t),
                None => spec_find_scope(self.temps@, *id) is None,
            },
    {
        proof {
            assert(self.temps@.subrange(0, self.temps@.len() as int) =~= self.temps@);
        }
        let mut i: usize = 0;
        while i < self.temps.len()
            invariant
                0 <= i <= self.temps@.len(),
                spec_find_scope(self.temps@, *id) == spec_find_scope(
                    self.temps@.subrange(i as int, self.temps@.len() as int),
                    *id,
                ),
            decreases self.temps@.len() - i,
        {
            proof {
                let rest = self.temps@.subrange(i as int, self.temps@.len() as int);
                assert(rest.drop_first() =~= self.temps@.subrange(
                    i as int + 1,
                    self.temps@.len() as int,
                ));
                assert(rest[0] == self.temps@[i as int]);
            }
            if self.temps[i].id == *id {
                return Some(&self.temps[i]);
            }
            i = i + 1;
        }
        proof {
            assert(self.temps@.subrange(i as int, self.temps@.len() as int).len() == 0);
        }
        None
    }

    /// Loads rows, keeping their order after what is already stored.
    pub fn init(&mut self, t: Vec<SkillScopeTemp>)
        ensures
            final(self).temps@ == old(self).temps@ + t@,
    {
        let mut t = t;
        self.temps.append(&mut t);
    }
}

impl TemplateMgrTrait for SkillScopeTempMgr {
    fn is_empty(&self) -> (r: bool)
        ensures
            r == (self.temps@.len() == 0),
    {
        self.temps.len() == 0
    }

    fn clear(&mut self)
        ensures
            final(self).temps@.len() == 0,
    {
        self.temps.clear();
    }
}

/// Board layouts.
#[derive(Clone, Debug, Default)]
pub struct TileMapTempMgr {
    pub temps: Vec<TileMapTemp>,
}

impl TileMapTempMgr {
    /// A loaded layout row with this id, or nothing when none carries it.
    pub fn get_temp(&self, map_id: u32) -> (r: Option<&TileMapTemp>)
        ensures
            match r {
                Some(t) => t.id == map_id && (exists|i: int|
                    0 <= i < self.temps@.len() && self.temps@[i] == *t),
                None => forall|i: int|
                    0 <= i < self.temps@.len() ==> (#[trigger] self.temps@[i]).id != map_id,
            },
    {
        let mut i: usize = 0;
        while i < self.temps.len()
            invariant
                0 <= i <= self.temps@.len(),
                forall|j: int| 0 <= j < i ==> (#[trigger] self.temps@[j]).id != map_id,
            decreases self.temps@.len() - i,
        {
            if self.temps[i].id == map_id {
                return Some(&self.temps[i]);
            }
            i = i + 1;
        }
        None
    }

    /// Loads rows, keeping their order after what is already stored.
    pub fn init(&mut self, t: Vec<TileMapTemp>)
        ensures
            final(self).temps@ == old(self).temps@ + t@,
    {
        let mut t = t;
        self.temps.append(&mut t);
    }
}

impl TemplateMgrTrait for TileMapTempMgr {
    fn is_empty(&self) -> (r: bool)
        ensures
            r == (self.temps@.len() == 0),
    {
        self.temps.len() == 0
    }

    fn clear(&mut self)
        ensures
            final(self).temps@.len() == 0,
    {
        self.temps.clear();
    }
}

// ---------------------------------------------------------------------------
// The whole store.
// ---------------------------------------------------------------------------

/// The read-only handle the engine receives: every catalog in one place.
#[derive(Clone, Debug, Default)]
pub struct TemplatesMgr {
    pub character_temp_mgr: CharacterTempMgr,
    pub tile_map_temp_mgr: TileMapTempMgr,
    pub constant_temp_mgr: ConstantTempMgr,
    pub cell_temp_mgr: CellTempMgr,
    pub skill_temp_mgr: SkillTempMgr,
    pub skill_scope_temp_mgr: SkillScopeTempMgr,
    pub buff_temp_mgr: BuffTempMgr,
    pub skill_judge_temp_mgr: SkillJudgeTempMgr,
    pub summary_award_temp_mgr: SummaryAwardTempMgr,
}

impl TemplatesMgr {
    /// Touches the store once after loading, as a readiness check.
    pub fn execute_init(&self) {
        let _ = self.constant_temp_mgr();
    }

    /// The character catalog.
    pub fn character_temp_mgr(&self) -> (r: &CharacterTempMgr)
        ensures
            *r == self.character_temp_mgr,
    {
        &self.character_temp_mgr
    }

    /// The board-layout catalog.
    pub fn tile_map_temp_mgr(&self) -> (r: &TileMapTempMgr)
        ensures
            *r == self.tile_map_temp_mgr,
    {
        &self.tile_map_temp_mgr
    }

    /// The constant catalog.
    pub fn constant_temp_mgr(&self) -> (r: &ConstantTempMgr)
        ensures
            *r == self.constant_temp_mgr,
    {
        &self.constant_temp_mgr
    }

    /// The tile catalog.
    pub fn cell_temp_mgr(&self) -> (r: &CellTempMgr)
        ensures
            *r == self.cell_temp_mgr,
    {
        &self.cell_temp_mgr
    }

    /// The skill catalog.
    pub fn skill_temp_mgr(&self) -> (r: &SkillTempMgr)
        ensures
            *r == self.skill_temp_mgr,
    {
        &self.skill_temp_mgr
    }

    /// The area catalog.
    pub fn skill_scope_temp_mgr(&self) -> (r: &SkillScopeTempMgr)
        ensures
            *r == self.skill_scope_temp_mgr,
    {
        &self.skill_scope_temp_mgr
    }

    /// The buff catalog.
    pub fn buff_temp_mgr(&self) -> (r: &BuffTempMgr)
        ensures
            *r == self.buff_temp_mgr,
    {
        &self.buff_temp_mgr
    }

    /// The skill-use-condition catalog.
    pub fn skill_judge_temp_mgr(&self) -> (r: &SkillJudgeTempMgr)
        ensures
            *r == self.skill_judge_temp_mgr,
    {
        &self.skill_judge_temp_mgr
    }

    /// The rank-award catalog.
    pub fn summary_award_temp_mgr(&self) -> (r: &SummaryAwardTempMgr)
        ensures
            *r == self.summary_award_temp_mgr,
    {
        &self.summary_award_temp_mgr
    }
}

} // verus!

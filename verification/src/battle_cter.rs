//! Combatant state: base stats, skills, active buffs, board position, and
//! minion/owner links of one battle character.

use vstd::prelude::*;

use crate::battle_buff::buff_wf;
use crate::battle_buff::spec_buff_fresh;
use crate::battle_buff::Buff;
use crate::battle_enum::spec_is_sub_damage_buff;
use crate::battle_enum::BattleCterState;
use crate::battle_enum::DayNight;
use crate::battle_enum::FromType;
use crate::battle_enum::DAY_SKILLS;
use crate::battle_enum::FIRE_PROTECT;
use crate::battle_enum::GD_ATTACK_DAMAGE;
use crate::battle_enum::END_TURN_FIRE;
use crate::battle_enum::NIGHT_SKILLS;
use crate::battle_enum::STONE_BUFF;
use crate::battle_skill::skill_wf;
use crate::battle_skill::Skill;
use crate::proto::BattlePlayerPt;
use crate::templates::BuffTemp;
use crate::templates::CharacterTemp;

verus! {

/// Largest hit-point total the engine stores; healing saturates here.
pub const HP_CAP: i32 = 1000000000;

/// Largest stat value the engine stores.
pub const STAT_CAP: i32 = 1000000000;

/// Clamping of a mathematical hit-point total into the stored range.
pub open spec fn clamp_hp(v: int) -> int {
    if v < 0 {
        0
    } else if v > HP_CAP as int {
        HP_CAP as int
    } else {
        v
    }
}

/// Base stats of a character.
#[derive(Clone, Copy, Debug, PartialEq, Eq, Structural)]
pub struct BaseAttr {
    /// Unique id of this character instance within the battle.
    pub cter_id: u32,
    /// Template the character was created from; changes on transform.
    pub cter_temp_id: u32,
    /// The owning player's user id.
    pub user_id: u32,
    /// Team the character fights for.
    pub team_id: u8,
    /// Current hit points; zero exactly when dead.
    pub hp: i32,
    /// Hit points the character started with.
    pub max_hp: i32,
    /// Attack value of a basic attack.
    pub attack: i32,
    /// Base defence subtracted from incoming attack damage.
    pub defence: i32,
    /// Current energy.
    pub energy: u32,
    /// Energy ceiling; zero means the character uses no energy.
    pub max_energy: u32,
    /// Element tag of the character.
    pub element: u8,
}

/// Board position of a character.
#[derive(Clone, Copy, Debug, PartialEq, Eq, Structural)]
pub struct IndexData {
    /// Cell the character stands on; unset while unplaced.
    pub map_cell_index: Option<usize>,
}

/// The buffs a character carries.  A stacked buff appears once per stack.
#[derive(Clone, Debug)]
pub struct BattleBuffs {
    pub buffs: Vec<Buff>,
}

impl BattleBuffs {
    /// No buffs at all.
    pub fn new_empty() -> (r: BattleBuffs)
        ensures
            r.buffs@.len() == 0,
    {
        BattleBuffs { buffs: Vec::new() }
    }

    /// Position of the first buff with this template id, if any.
    pub fn find_buff(&self, buff_id: u32) -> (r: Option<usize>)
        ensures
            match r {
                Some(i) => i < self.buffs@.len() && self.buffs@[i as int].id == buff_id && (
                forall|j: int| 0 <= j < i ==> (#[trigger] self.buffs@[j]).id != buff_id),
                None => forall|i: int|
                    0 <= i < self.buffs@.len() ==> (#[trigger] self.buffs@[i]).id != buff_id,
            },
    {
        let mut i: usize = 0;
        while i < self.buffs.len()
            invariant
                0 <= i <= self.buffs@.len(),
                forall|j: int| 0 <= j < i ==> (#[trigger] self.buffs@[j]).id != buff_id,
            decreases self.buffs@.len() - i,
        {
            if self.buffs[i].id == buff_id {
                return Some(i);
            }
            i = i + 1;
        }
        None
    }

    /// Position of the first buff of this behaviour family, if any.
    pub fn find_buff_by_function(&self, function_id: u32) -> (r: Option<usize>)
        ensures
            match r {
                Some(i) => i < self.buffs@.len() && self.buffs@[i as int].function_id
                    == function_id && (forall|j: int|
                    0 <= j < i ==> (#[trigger] self.buffs@[j]).function_id != function_id),
                None => forall|i: int|
                    0 <= i < self.buffs@.len() ==> (#[trigger] self.buffs@[i]).function_id
                        != function_id,
            },
    {
        let mut i: usize = 0;
        while i < self.buffs.len()
            invariant
                0 <= i <= self.buffs@.len(),
                forall|j: int|
                    0 <= j < i ==> (#[trigger] self.buffs@[j]).function_id != function_id,
            decreases self.buffs@.len() - i,
        {
            if self.buffs[i].function_id == function_id {
                return Some(i);
            }
            i = i + 1;
        }
        None
    }

    /// The first buff with this template id, if any.
    pub fn get_buff(&self, buff_id: u32) -> (r: Option<&Buff>)
        ensures
            match r {
                Some(b) => b.id == buff_id && (exists|i: int|
                    0 <= i < self.buffs@.len() && self.buffs@[i] == *b),
                None => forall|i: int|
                    0 <= i < self.buffs@.len() ==> (#[trigger] self.buffs@[i]).id != buff_id,
            },
    {
        match self.find_buff(buff_id) {
            Some(i) => Some(&self.buffs[i]),
            None => None,
        }
    }
}

/// One character in battle.
#[derive(Clone, Debug)]
pub struct BattleCharacter {
    pub base_attr: BaseAttr,
    pub index_data: IndexData,
    /// The skills the character currently holds.
    pub skills: Vec<Skill>,
    /// The buffs currently on the character.
    pub battle_buffs: BattleBuffs,
    /// Ids of minions this character summoned, without duplicates.
    pub minons: Vec<u32>,
    /// For a minion: the summoning character and what summoned it.
    pub owner: Option<(u32, FromType)>,
    /// True for the one character whose death ends its player's battle.
    pub is_major: bool,
    /// Day/night mode the character's skill set is aligned with.
    pub day_night: DayNight,
    /// Alive or fallen.
    pub state: BattleCterState,
    /// Template id to revert to when a transform ends.
    pub self_cter_temp_id: u32,
}

/// Well-formedness of a character: hit points stay in range and are zero
/// exactly when the character is marked dead, stats stay in range, every
/// skill and buff is itself well-formed, and minion ids are distinct.
#[verifier::opaque]
pub open spec fn cter_wf(c: BattleCharacter) -> bool {
    &&& 0 <= c.base_attr.hp <= HP_CAP as int
    &&& (c.state == BattleCterState::Die <==> c.base_attr.hp == 0)
    &&& 0 <= c.base_attr.max_hp <= HP_CAP as int
    &&& 0 <= c.base_attr.attack <= STAT_CAP as int
    &&& 0 <= c.base_attr.defence <= STAT_CAP as int
    &&& c.base_attr.cter_id != 0
    &&& forall|i: int| 0 <= i < c.skills@.len() ==> skill_wf(#[trigger] c.skills@[i])
    &&& forall|i: int|
        0 <= i < c.battle_buffs.buffs@.len() ==> buff_wf(#[trigger] c.battle_buffs.buffs@[i])
    &&& forall|k: int, l: int|
        0 <= k < l < c.minons@.len() ==> c.minons@[k] != c.minons@[l]
}

impl BattleCharacter {
    /// The character's unique id.
    pub fn get_cter_id(&self) -> (r: u32)
        ensures
            r == self.base_attr.cter_id,
    {
        self.base_attr.cter_id
    }

    /// The owning player's user id.
    pub fn get_user_id(&self) -> (r: u32)
        ensures
            r == self.base_attr.user_id,
    {
        self.base_attr.user_id
    }

    /// The template the character currently embodies.
    pub fn get_cter_temp_id(&self) -> (r: u32)
        ensures
            r == self.base_attr.cter_temp_id,
    {
        self.base_attr.cter_temp_id
    }

    /// The cell the character stands on, or zero while unplaced.
    pub fn get_map_cell_index(&self) -> (r: usize)
        ensures
            r == spec_map_cell_index(*self),
    {
        match self.index_data.map_cell_index {
            Some(i) => i,
            None => 0,
        }
    }

    /// Moves the character to the cell at `index`.
    pub fn move_index(&mut self, index: usize)
        ensures
            final(self).index_data.map_cell_index == Some(index),
            spec_same_cter_but_index(*old(self), *final(self)),
    {
        self.index_data.map_cell_index = Some(index);
    }

    /// True once the character has fallen.
    pub fn is_died(&self) -> (r: bool)
        ensures
            r == (self.state == BattleCterState::Die),
    {
        self.state == BattleCterState::Die
    }

    /// Adds `v` hit points (negative for damage).  The total is clamped to
    /// the stored range; the character dies exactly when it reaches zero.
    /// Returns whether the character died.
    pub fn add_hp(&mut self, v: i32) -> (is_die: bool)
        requires
            0 <= old(self).base_attr.hp <= HP_CAP as int,
        ensures
            final(self).base_attr.hp == clamp_hp(old(self).base_attr.hp + v),
            is_die == (old(self).base_attr.hp + v <= 0),
            final(self).state == if is_die {
                BattleCterState::Die
            } else {
                old(self).state
            },
            spec_same_cter_but_hp_state(*old(self), *final(self)),
    {
        let next: i64 = self.base_attr.hp as i64 + v as i64;
        if next <= 0 {
            self.base_attr.hp = 0;
            self.state = BattleCterState::Die;
            true
        } else if next > HP_CAP as i64 {
            self.base_attr.hp = HP_CAP;
            false
        } else {
            self.base_attr.hp = next as i32;
            false
        }
    }

    /// Adds `v` energy (negative to spend), clamped between zero and the
    /// character's energy ceiling.
    pub fn add_energy(&mut self, v: i32)
        requires
            old(self).base_attr.energy <= old(self).base_attr.max_energy,
        ensures
            final(self).base_attr.energy == spec_clamp_energy(
                old(self).base_attr.energy as int + v,
                old(self).base_attr.max_energy,
            ),
            spec_same_cter_but_energy(*old(self), *final(self)),
    {
        let next: i64 = self.base_attr.energy as i64 + v as i64;
        if next < 0 {
            self.base_attr.energy = 0;
        } else if next > self.base_attr.max_energy as i64 {
            self.base_attr.energy = self.base_attr.max_energy;
        } else {
            self.base_attr.energy = next as u32;
        }
    }

    /// The damage of the character's basic attack.
    pub fn calc_damage(&self) -> (r: i32)
        ensures
            r == self.base_attr.attack,
    {
        self.base_attr.attack
    }

    /// Position of the skill with this id, if the character holds it.
    pub fn find_skill(&self, skill_id: u32) -> (r: Option<usize>)
        ensures
            match r {
                Some(i) => i < self.skills@.len() && self.skills@[i as int].id == skill_id && (
                forall|j: int| 0 <= j < i ==> (#[trigger] self.skills@[j]).id != skill_id),
                None => forall|i: int|
                    0 <= i < self.skills@.len() ==> (#[trigger] self.skills@[i]).id != skill_id,
            },
    {
        let mut i: usize = 0;
        while i < self.skills.len()
            invariant
                0 <= i <= self.skills@.len(),
                forall|j: int| 0 <= j < i ==> (#[trigger] self.skills@[j]).id != skill_id,
            decreases self.skills@.len() - i,
        {
            if self.skills[i].id == skill_id {
                return Some(i);
            }
            i = i + 1;
        }
        None
    }

    /// Shortens every skill's cooldown by `value` (one when absent).
    pub fn sub_skill_cd(&mut self, value: Option<i8>)
        requires
            forall|i: int| 0 <= i < old(self).skills@.len() ==> skill_wf(
                #[trigger] old(self).skills@[i],
            ),
        ensures
            final(self).skills@.len() == old(self).skills@.len(),
            forall|i: int| 0 <= i < final(self).skills@.len() ==> skill_wf(
                #[trigger] final(self).skills@[i],
            ),
            forall|i: int|
                0 <= i < final(self).skills@.len() ==> (#[trigger] final(self).skills@[i]).cd_times
                    == crate::battle_skill::clamp_cd(
                    old(self).skills@[i].cd_times - (match value {
                        Some(v) => v as int,
                        None => 1,
                    }),
                ) && crate::battle_skill::spec_same_but_cd(
                    old(self).skills@[i],
                    final(self).skills@[i],
                ),
            spec_same_cter_but_skills(*old(self), *final(self)),
    {
        let mut i: usize = 0;
        while i < self.skills.len()
            invariant
                0 <= i <= self.skills@.len(),
                self.skills@.len() == old(self).skills@.len(),
                forall|j: int| 0 <= j < old(self).skills@.len() ==> skill_wf(
                    #[trigger] old(self).skills@[j],
                ),
                forall|j: int|
                    (i as int) <= j < self.skills@.len() ==> #[trigger] self.skills@[j] == old(
                        self,
                    ).skills@[j],
                forall|j: int|
                    0 <= j < i ==> (#[trigger] self.skills@[j]).cd_times
                        == crate::battle_skill::clamp_cd(
                        old(self).skills@[j].cd_times - (match value {
                            Some(v) => v as int,
                            None => 1,
                        }),
                    ) && crate::battle_skill::spec_same_but_cd(
                        old(self).skills@[j],
                        self.skills@[j],
                    ),
                spec_same_cter_but_skills(*old(self), *self),
            decreases self.skills@.len() - i,
        {
            let skill = &mut self.skills[i];
            skill.sub_cd(value);
            i = i + 1;
        }
    }

    /// The guard buff's id and whether consuming it would remove it, or
    /// zero when the character holds no guard buff.
    pub fn trigger_attack_damge_gd(&self) -> (r: (u32, bool))
        ensures
            match spec_find_function(self.battle_buffs.buffs@, GD_ATTACK_DAMAGE) {
                Some(b) => r.0 == b.id && r.1 == !b.permanent,
                None => r.0 == 0 && r.1 == false,
            },
    {
        match self.battle_buffs.find_buff_by_function(GD_ATTACK_DAMAGE) {
            Some(i) => {
                proof {
                    lemma_find_function_finds(self.battle_buffs.buffs@, GD_ATTACK_DAMAGE, i as int);
                }
                let b = &self.battle_buffs.buffs[i];
                (b.id, !b.permanent)
            },
            None => {
                proof {
                    lemma_find_function_none(self.battle_buffs.buffs@, GD_ATTACK_DAMAGE);
                }
                (0, false)
            },
        }
    }

    /// The character's petrify buff, if one is active.
    pub fn get_stone_buff(&self) -> (r: Option<&Buff>)
        ensures
            match r {
                Some(b) => b.function_id == STONE_BUFF && spec_find_function(
                    self.battle_buffs.buffs@,
                    STONE_BUFF,
                ) == Some(*b),
                None => spec_find_function(self.battle_buffs.buffs@, STONE_BUFF) is None,
            },
    {
        match self.battle_buffs.find_buff_by_function(STONE_BUFF) {
            Some(i) => {
                proof {
                    lemma_find_function_finds(self.battle_buffs.buffs@, STONE_BUFF, i as int);
                }
                Some(&self.battle_buffs.buffs[i])
            },
            None => {
                proof {
                    lemma_find_function_none(self.battle_buffs.buffs@, STONE_BUFF);
                }
                None
            },
        }
    }

    /// The character's fire-protection buff, if one is active.
    pub fn get_fire_protect_buff(&self) -> (r: Option<&Buff>)
        ensures
            match r {
                Some(b) => b.function_id == FIRE_PROTECT && (exists|i: int|
                    0 <= i < self.battle_buffs.buffs@.len() && self.battle_buffs.buffs@[i] == *b),
                None => forall|i: int|
                    0 <= i < self.battle_buffs.buffs@.len() ==> (
                    #[trigger] self.battle_buffs.buffs@[i]).function_id != FIRE_PROTECT,
            },
    {
        match self.battle_buffs.find_buff_by_function(FIRE_PROTECT) {
            Some(i) => Some(&self.battle_buffs.buffs[i]),
            None => None,
        }
    }

    /// The buff that leaves fire traps at turn end, if one is active.
    pub fn get_end_turn_fire_buff(&self) -> (r: Option<&Buff>)
        ensures
            match r {
                Some(b) => b.function_id == END_TURN_FIRE && (exists|i: int|
                    0 <= i < self.battle_buffs.buffs@.len() && self.battle_buffs.buffs@[i] == *b),
                None => forall|i: int|
                    0 <= i < self.battle_buffs.buffs@.len() ==> (
                    #[trigger] self.battle_buffs.buffs@[i]).function_id != END_TURN_FIRE,
            },
    {
        match self.battle_buffs.find_buff_by_function(END_TURN_FIRE) {
            Some(i) => Some(&self.battle_buffs.buffs[i]),
            None => None,
        }
    }

    /// The skill-swap buff of the given phase, if the character holds one.
    pub fn get_day_night_buff(&self, day_night: DayNight) -> (r: Option<&Buff>)
        ensures
            match r {
                Some(b) => b.function_id == spec_day_night_function(day_night) && (exists|i: int|
                    0 <= i < self.battle_buffs.buffs@.len() && self.battle_buffs.buffs@[i] == *b),
                None => forall|i: int|
                    0 <= i < self.battle_buffs.buffs@.len() ==> (
                    #[trigger] self.battle_buffs.buffs@[i]).function_id
                        != spec_day_night_function(day_night),
            },
    {
        let function_id = match day_night {
            DayNight::Day => DAY_SKILLS,
            DayNight::Night => NIGHT_SKILLS,
        };
        match self.battle_buffs.find_buff_by_function(function_id) {
            Some(i) => Some(&self.battle_buffs.buffs[i]),
            None => None,
        }
    }

    /// Installs a fresh buff of the template on the character.
    pub fn add_buff(
        &mut self,
        from_cter: Option<u32>,
        from_skill: Option<u32>,
        temp: &BuffTemp,
        turn_index: Option<usize>,
    )
        ensures
            final(self).battle_buffs.buffs@.len() == old(self).battle_buffs.buffs@.len() + 1,
            forall|i: int|
                0 <= i < old(self).battle_buffs.buffs@.len() ==> final(self).battle_buffs.buffs@[i]
                    == old(self).battle_buffs.buffs@[i],
            spec_buff_fresh(
                final(self).battle_buffs.buffs@.last(),
                *temp,
                turn_index,
                from_cter,
                from_skill,
            ),
            buff_wf(final(self).battle_buffs.buffs@.last()),
            spec_same_cter_but_buffs(*old(self), *final(self)),
    {
        let buff = Buff::new(temp, turn_index, from_cter, from_skill);
        self.battle_buffs.buffs.push(buff);
    }

    /// Drops the first buff with this template id, if one is on the
    /// character; every other buff stays, in order.
    pub fn remove_buff(&mut self, buff_id: u32)
        ensures
            (forall|i: int|
                0 <= i < old(self).battle_buffs.buffs@.len() ==> (#[trigger] old(
                    self,
                ).battle_buffs.buffs@[i]).id != buff_id) ==> final(self).battle_buffs.buffs@
                == old(self).battle_buffs.buffs@,
            (exists|i: int|
                0 <= i < old(self).battle_buffs.buffs@.len() && (#[trigger] old(
                    self,
                ).battle_buffs.buffs@[i]).id == buff_id) ==> (exists|p: int|
                0 <= p < old(self).battle_buffs.buffs@.len() && (#[trigger] old(
                    self,
                ).battle_buffs.buffs@[p]).id == buff_id && (forall|j: int|
                    0 <= j < p ==> (#[trigger] old(self).battle_buffs.buffs@[j]).id != buff_id)
                    && final(self).battle_buffs.buffs@ == old(self).battle_buffs.buffs@.remove(
                    p,
                )),
            spec_same_cter_but_buffs(*old(self), *final(self)),
    {
        let pos = self.battle_buffs.find_buff(buff_id);
        if let Some(pos) = pos {
            let _ = self.battle_buffs.buffs.remove(pos);
            proof {
                assert(0 <= pos < old(self).battle_buffs.buffs@.len() && old(
                    self,
                ).battle_buffs.buffs@[pos as int].id == buff_id && (forall|j: int|
                    0 <= j < pos ==> (#[trigger] old(self).battle_buffs.buffs@[j]).id != buff_id)
                    && self.battle_buffs.buffs@ == old(self).battle_buffs.buffs@.remove(
                    pos as int,
                ));
            }
        }
    }

    /// The character's public record for client pushes.
    pub fn convert_to_battle_player_pt_entry(&self, gold: i32) -> (r: BattlePlayerPt)
        ensures
            r.user_id == self.base_attr.user_id,
            r.major_cter_id == self.base_attr.cter_id,
            r.current_cter_id == self.base_attr.cter_id,
            r.gold == gold,
            r.is_died == (self.state == BattleCterState::Die),
    {
        BattlePlayerPt {
            user_id: self.base_attr.user_id,
            major_cter_id: self.base_attr.cter_id,
            current_cter_id: self.base_attr.cter_id,
            gold,
            is_died: self.state == BattleCterState::Die,
        }
    }

    /// A freshly summoned minion standing on `index`, owned by
    /// `owner_cter_id` through `from_type`, with the stats of `temp`.
    pub fn init_for_minon(
        from_user_id: u32,
        team_id: u8,
        owner_cter_id: u32,
        from_type: FromType,
        new_cter_id: u32,
        temp: &CharacterTemp,
        index: usize,
    ) -> (r: BattleCharacter)
        requires
            new_cter_id != 0,
        ensures
            r.base_attr.cter_id == new_cter_id,
            r.base_attr.cter_temp_id == temp.id,
            r.base_attr.user_id == from_user_id,
            r.base_attr.team_id == team_id,
            r.base_attr.hp == clamp_hp(temp.hp as int),
            r.base_attr.hp == r.base_attr.max_hp,
            r.owner == Some((owner_cter_id, from_type)),
            r.index_data.map_cell_index == Some(index),
            r.is_major == false,
            r.state == (if temp.hp == 0 {
                BattleCterState::Die
            } else {
                BattleCterState::Alive
            }),
            r.minons@.len() == 0,
            r.skills@.len() == 0,
            r.battle_buffs.buffs@.len() == 0,
            temp.hp > 0 ==> cter_wf(r),
    {
        proof {
            reveal(cter_wf);
        }
        let hp: i32 = if temp.hp > HP_CAP as u32 {
            HP_CAP
        } else {
            temp.hp as i32
        };
        let attack: i32 = if temp.attack > STAT_CAP as u32 {
            STAT_CAP
        } else {
            temp.attack as i32
        };
        let defence: i32 = if temp.defence > STAT_CAP as u32 {
            STAT_CAP
        } else {
            temp.defence as i32
        };
        BattleCharacter {
            base_attr: BaseAttr {
                cter_id: new_cter_id,
                cter_temp_id: temp.id,
                user_id: from_user_id,
                team_id,
                hp,
                max_hp: hp,
                attack,
                defence,
                energy: 0,
                max_energy: temp.energy,
                element: 0,
            },
            index_data: IndexData { map_cell_index: Some(index) },
            skills: Vec::new(),
            battle_buffs: BattleBuffs::new_empty(),
            minons: Vec::new(),
            owner: Some((owner_cter_id, from_type)),
            is_major: false,
            day_night: DayNight::Day,
            state: if hp == 0 {
                BattleCterState::Die
            } else {
                BattleCterState::Alive
            },
            self_cter_temp_id: temp.id,
        }
    }

    /// Reverts a transform: the character embodies its own template again
    /// and sheds every transform buff.  The shed buffs come back to the
    /// caller; every other buff stays, in order.
    pub fn transform_back(&mut self) -> (removed: Vec<Buff>)
        ensures
            final(self).base_attr.cter_temp_id == old(self).self_cter_temp_id,
            forall|i: int|
                0 <= i < final(self).battle_buffs.buffs@.len() ==> !crate::battle_enum::spec_is_transform_buff(
                    (#[trigger] final(self).battle_buffs.buffs@[i]).function_id,
                ),
            forall|i: int|
                0 <= i < removed@.len() ==> crate::battle_enum::spec_is_transform_buff(
                    (#[trigger] removed@[i]).function_id,
                ),
            forall|i: int|
                0 <= i < final(self).battle_buffs.buffs@.len() ==> old(
                    self,
                ).battle_buffs.buffs@.contains(#[trigger] final(self).battle_buffs.buffs@[i]),
            forall|i: int|
                0 <= i < removed@.len() ==> old(self).battle_buffs.buffs@.contains(
                    #[trigger] removed@[i],
                ),
            final(self).battle_buffs.buffs@.len() + removed@.len() == old(
                self,
            ).battle_buffs.buffs@.len(),
            spec_same_cter_but_buffs_and_temp(*old(self), *final(self)),
    {
        self.base_attr.cter_temp_id = self.self_cter_temp_id;
        let mut removed: Vec<Buff> = Vec::new();
        let ghost orig = self.battle_buffs.buffs@;
        let mut idx: usize = 0;
        while idx < self.battle_buffs.buffs.len()
            invariant
                0 <= idx <= self.battle_buffs.buffs@.len(),
                forall|k: int|
                    0 <= k < idx ==> !crate::battle_enum::spec_is_transform_buff(
                        (#[trigger] self.battle_buffs.buffs@[k]).function_id,
                    ),
                forall|k: int|
                    0 <= k < removed@.len() ==> crate::battle_enum::spec_is_transform_buff(
                        (#[trigger] removed@[k]).function_id,
                    ),
                forall|k: int|
                    0 <= k < self.battle_buffs.buffs@.len() ==> orig.contains(
                        #[trigger] self.battle_buffs.buffs@[k],
                    ),
                forall|k: int|
                    0 <= k < removed@.len() ==> orig.contains(#[trigger] removed@[k]),
                self.battle_buffs.buffs@.len() + removed@.len() == orig.len(),
                spec_same_cter_but_buffs_and_temp(*old(self), *self),
                self.base_attr.cter_temp_id == old(self).self_cter_temp_id,
            decreases self.battle_buffs.buffs@.len() - idx,
        {
            let is_transform = crate::battle_enum::is_transform_buff(
                self.battle_buffs.buffs[idx].function_id,
            );
            if is_transform {
                let ghost pre = self.battle_buffs.buffs@;
                let ghost removed_pre = removed@;
                let b = self.battle_buffs.buffs.remove(idx);
                removed.push(b);
                proof {
                    assert(forall|k: int|
                        0 <= k < removed_pre.len() ==> removed@[k] == #[trigger] removed_pre[k]);
                    assert(removed@[removed@.len() - 1] == b);
                    assert forall|k: int|
                        0 <= k < self.battle_buffs.buffs@.len() implies orig.contains(
                        #[trigger] self.battle_buffs.buffs@[k],
                    ) by {
                        if k < idx {
                            assert(self.battle_buffs.buffs@[k] == pre[k]);
                        } else {
                            assert(self.battle_buffs.buffs@[k] == pre[k + 1]);
                        }
                    }
                }
            } else {
                idx = idx + 1;
            }
        }
        removed
    }
}

/// Phase-to-family mapping of the skill-swap buffs.
pub open spec fn spec_day_night_function(day_night: DayNight) -> u32 {
    match day_night {
        DayNight::Day => DAY_SKILLS,
        DayNight::Night => NIGHT_SKILLS,
    }
}

/// The cell the character stands on, or zero while unplaced.
pub open spec fn spec_map_cell_index(c: BattleCharacter) -> usize {
    match c.index_data.map_cell_index {
        Some(i) => i,
        None => 0,
    }
}

/// First buff with the template id in the list, if any.
pub open spec fn spec_find_buff_in(s: Seq<Buff>, id: u32) -> Option<Buff>
    decreases s.len(),
{
    if s.len() == 0 {
        None
    } else if s[0].id == id {
        Some(s[0])
    } else {
        spec_find_buff_in(s.drop_first(), id)
    }
}

/// The first position holding the id determines `spec_find_buff_in`.
pub proof fn lemma_find_buff_in(s: Seq<Buff>, id: u32, i: int)
    requires
        0 <= i < s.len(),
        s[i].id == id,
        forall|j: int| 0 <= j < i ==> (#[trigger] s[j]).id != id,
    ensures
        spec_find_buff_in(s, id) == Some(s[i]),
    decreases i,
{
    if i > 0 {
        assert(forall|j: int| 0 <= j < i - 1 ==> (#[trigger] s.drop_first()[j]).id != id);
        lemma_find_buff_in(s.drop_first(), id, i - 1);
    }
}

/// A list without the id yields nothing.
pub proof fn lemma_find_buff_in_none(s: Seq<Buff>, id: u32)
    requires
        forall|i: int| 0 <= i < s.len() ==> (#[trigger] s[i]).id != id,
    ensures
        spec_find_buff_in(s, id) is None,
    decreases s.len(),
{
    if s.len() > 0 {
        lemma_find_buff_in_none(s.drop_first(), id);
    }
}

/// First buff of the family in the list, if any.
pub open spec fn spec_find_function(s: Seq<Buff>, function_id: u32) -> Option<Buff>
    decreases s.len(),
{
    if s.len() == 0 {
        None
    } else if s[0].function_id == function_id {
        Some(s[0])
    } else {
        spec_find_function(s.drop_first(), function_id)
    }
}

/// The first position holding the family determines `spec_find_function`.
pub proof fn lemma_find_function_finds(s: Seq<Buff>, function_id: u32, i: int)
    requires
        0 <= i < s.len(),
        s[i].function_id == function_id,
        forall|j: int| 0 <= j < i ==> (#[trigger] s[j]).function_id != function_id,
    ensures
        spec_find_function(s, function_id) == Some(s[i]),
    decreases i,
{
    if i > 0 {
        assert(forall|j: int|
            0 <= j < i - 1 ==> (#[trigger] s.drop_first()[j]).function_id != function_id);
        lemma_find_function_finds(s.drop_first(), function_id, i - 1);
    }
}

/// A list without the family yields nothing.
pub proof fn lemma_find_function_none(s: Seq<Buff>, function_id: u32)
    requires
        forall|i: int| 0 <= i < s.len() ==> (#[trigger] s[i]).function_id != function_id,
    ensures
        spec_find_function(s, function_id) is None,
    decreases s.len(),
{
    if s.len() > 0 {
        lemma_find_function_none(s.drop_first(), function_id);
    }
}

/// All of `b` equals `a` except position data.
pub open spec fn spec_same_cter_but_index(a: BattleCharacter, b: BattleCharacter) -> bool {
    &&& b.base_attr == a.base_attr
    &&& b.skills == a.skills
    &&& b.battle_buffs == a.battle_buffs
    &&& b.minons == a.minons
    &&& b.owner == a.owner
    &&& b.is_major == a.is_major
    &&& b.day_night == a.day_night
    &&& b.state == a.state
    &&& b.self_cter_temp_id == a.self_cter_temp_id
}

/// All of `b` equals `a` except hit points and life state.
pub open spec fn spec_same_cter_but_hp_state(a: BattleCharacter, b: BattleCharacter) -> bool {
    &&& b.base_attr.cter_id == a.base_attr.cter_id
    &&& b.base_attr.cter_temp_id == a.base_attr.cter_temp_id
    &&& b.base_attr.user_id == a.base_attr.user_id
    &&& b.base_attr.team_id == a.base_attr.team_id
    &&& b.base_attr.max_hp == a.base_attr.max_hp
    &&& b.base_attr.attack == a.base_attr.attack
    &&& b.base_attr.defence == a.base_attr.defence
    &&& b.base_attr.energy == a.base_attr.energy
    &&& b.base_attr.max_energy == a.base_attr.max_energy
    &&& b.base_attr.element == a.base_attr.element
    &&& b.index_data == a.index_data
    &&& b.skills == a.skills
    &&& b.battle_buffs == a.battle_buffs
    &&& b.minons == a.minons
    &&& b.owner == a.owner
    &&& b.is_major == a.is_major
    &&& b.day_night == a.day_night
    &&& b.self_cter_temp_id == a.self_cter_temp_id
}

/// All of `b` equals `a` except its energy.
pub open spec fn spec_same_cter_but_energy(a: BattleCharacter, b: BattleCharacter) -> bool {
    &&& b.base_attr.cter_id == a.base_attr.cter_id
    &&& b.base_attr.cter_temp_id == a.base_attr.cter_temp_id
    &&& b.base_attr.user_id == a.base_attr.user_id
    &&& b.base_attr.team_id == a.base_attr.team_id
    &&& b.base_attr.hp == a.base_attr.hp
    &&& b.base_attr.max_hp == a.base_attr.max_hp
    &&& b.base_attr.attack == a.base_attr.attack
    &&& b.base_attr.defence == a.base_attr.defence
    &&& b.base_attr.max_energy == a.base_attr.max_energy
    &&& b.base_attr.element == a.base_attr.element
    &&& b.index_data == a.index_data
    &&& b.skills == a.skills
    &&& b.battle_buffs == a.battle_buffs
    &&& b.minons == a.minons
    &&& b.owner == a.owner
    &&& b.is_major == a.is_major
    &&& b.day_night == a.day_night
    &&& b.state == a.state
    &&& b.self_cter_temp_id == a.self_cter_temp_id
}

/// All of `b` equals `a` except its skill list.
pub open spec fn spec_same_cter_but_skills(a: BattleCharacter, b: BattleCharacter) -> bool {
    &&& b.base_attr == a.base_attr
    &&& b.index_data == a.index_data
    &&& b.battle_buffs == a.battle_buffs
    &&& b.minons == a.minons
    &&& b.owner == a.owner
    &&& b.is_major == a.is_major
    &&& b.day_night == a.day_night
    &&& b.state == a.state
    &&& b.self_cter_temp_id == a.self_cter_temp_id
}

/// All of `b` equals `a` except its buff list.
pub open spec fn spec_same_cter_but_buffs(a: BattleCharacter, b: BattleCharacter) -> bool {
    &&& b.base_attr == a.base_attr
    &&& b.index_data == a.index_data
    &&& b.skills == a.skills
    &&& b.minons == a.minons
    &&& b.owner == a.owner
    &&& b.is_major == a.is_major
    &&& b.day_night == a.day_night
    &&& b.state == a.state
    &&& b.self_cter_temp_id == a.self_cter_temp_id
}

/// All of `b` equals `a` except its buff list and embodied template.
pub open spec fn spec_same_cter_but_buffs_and_temp(a: BattleCharacter, b: BattleCharacter) -> bool {
    &&& b.base_attr.cter_id == a.base_attr.cter_id
    &&& b.base_attr.user_id == a.base_attr.user_id
    &&& b.base_attr.team_id == a.base_attr.team_id
    &&& b.base_attr.hp == a.base_attr.hp
    &&& b.base_attr.max_hp == a.base_attr.max_hp
    &&& b.base_attr.attack == a.base_attr.attack
    &&& b.base_attr.defence == a.base_attr.defence
    &&& b.base_attr.energy == a.base_attr.energy
    &&& b.base_attr.max_energy == a.base_attr.max_energy
    &&& b.base_attr.element == a.base_attr.element
    &&& b.index_data == a.index_data
    &&& b.skills == a.skills
    &&& b.minons == a.minons
    &&& b.owner == a.owner
    &&& b.is_major == a.is_major
    &&& b.day_night == a.day_night
    &&& b.state == a.state
    &&& b.self_cter_temp_id == a.self_cter_temp_id
}

/// Clamping of an energy total between zero and the ceiling.
pub open spec fn spec_clamp_energy(v: int, max_energy: u32) -> int {
    if v < 0 {
        0
    } else if v > max_energy as int {
        max_energy as int
    } else {
        v
    }
}

} // verus!

//! Skill state: an instance of a skill template held by a character, with
//! its remaining cooldown, consumed flag, and per-turn use counter.

use vstd::prelude::*;

use crate::templates::SkillTemp;

verus! {

/// Largest cooldown the engine stores; additions saturate here.
pub const CD_MAX: i32 = 1000000;

/// One skill a character holds.
#[derive(Clone, Copy, Debug, PartialEq, Eq, Structural)]
pub struct Skill {
    /// Id of the skill template this instance was made from.
    pub id: u32,
    /// Behaviour family decoded from the template.
    pub function_id: u32,
    /// Copy of the immutable template row.
    pub skill_temp: SkillTemp,
    /// Remaining cooldown in turns; never negative.
    pub cd_times: i32,
    /// Marks a one-shot or transform skill as consumed.
    pub is_active: bool,
    /// How often the skill was used this turn.
    pub turn_use_times: u32,
}

/// A skill's cooldown stays within the engine's bounds.
pub open spec fn skill_wf(s: Skill) -> bool {
    &&& 0 <= s.cd_times <= CD_MAX
    &&& s.id == s.skill_temp.id
    &&& s.function_id == s.skill_temp.function_id
}

/// Clamping of a mathematical cooldown into the stored range.
pub open spec fn clamp_cd(v: int) -> int {
    if v < 0 {
        0
    } else if v > CD_MAX as int {
        CD_MAX as int
    } else {
        v
    }
}

impl Skill {
    /// A fresh skill instance of the template.  With `reset_cd` the
    /// cooldown starts fully charged, else at zero.
    pub fn from_skill_temp(temp: &SkillTemp, reset_cd: bool) -> (r: Skill)
        ensures
            r.id == temp.id,
            r.function_id == temp.function_id,
            r.skill_temp == *temp,
            r.cd_times == if reset_cd {
                clamp_cd(temp.cd as int)
            } else {
                0
            },
            r.is_active == false,
            r.turn_use_times == 0,
            skill_wf(r),
    {
        let cd: i32 = if reset_cd {
            if temp.cd > CD_MAX as u32 {
                CD_MAX
            } else {
                temp.cd as i32
            }
        } else {
            0
        };
        Skill {
            id: temp.id,
            function_id: temp.function_id,
            skill_temp: *temp,
            cd_times: cd,
            is_active: false,
            turn_use_times: 0,
        }
    }

    /// Shortens the cooldown by `value` (one when absent), clamped at zero.
    pub fn sub_cd(&mut self, value: Option<i8>)
        requires
            0 <= old(self).cd_times,
        ensures
            final(self).cd_times == clamp_cd(
                old(self).cd_times - (match value {
                    Some(v) => v as int,
                    None => 1,
                }),
            ),
            spec_same_but_cd(*old(self), *final(self)),
    {
        let v: i32 = match value {
            Some(v) => v as i32,
            None => 1,
        };
        let next: i64 = self.cd_times as i64 - v as i64;
        if next < 0 {
            self.cd_times = 0;
        } else if next > CD_MAX as i64 {
            self.cd_times = CD_MAX;
        } else {
            self.cd_times = next as i32;
        }
    }

    /// Lengthens the cooldown by `value` (one when absent), saturating at
    /// the engine's bound and clamped at zero.
    pub fn add_cd(&mut self, value: Option<i8>)
        ensures
            final(self).cd_times == clamp_cd(
                old(self).cd_times + (match value {
                    Some(v) => v as int,
                    None => 1,
                }),
            ),
            spec_same_but_cd(*old(self), *final(self)),
    {
        let v: i32 = match value {
            Some(v) => v as i32,
            None => 1,
        };
        let next: i64 = self.cd_times as i64 + v as i64;
        if next < 0 {
            self.cd_times = 0;
        } else if next > CD_MAX as i64 {
            self.cd_times = CD_MAX;
        } else {
            self.cd_times = next as i32;
        }
    }

    /// Recharges the cooldown to the template's configured value.
    pub fn reset_cd(&mut self)
        ensures
            final(self).cd_times == clamp_cd(old(self).skill_temp.cd as int),
            spec_same_but_cd(*old(self), *final(self)),
    {
        if self.skill_temp.cd > CD_MAX as u32 {
            self.cd_times = CD_MAX;
        } else {
            self.cd_times = self.skill_temp.cd as i32;
        }
    }

    /// Clears the cooldown entirely.
    pub fn clean_cd(&mut self)
        ensures
            final(self).cd_times == 0,
            spec_same_but_cd(*old(self), *final(self)),
    {
        self.cd_times = 0;
    }
}

/// All fields of `b` equal those of `a`, except the cooldown.
pub open spec fn spec_same_but_cd(a: Skill, b: Skill) -> bool {
    &&& b.id == a.id
    &&& b.function_id == a.function_id
    &&& b.skill_temp == a.skill_temp
    &&& b.is_active == a.is_active
    &&& b.turn_use_times == a.turn_use_times
}

/// All fields of `b` equal those of `a`, except the consumed flag.
pub open spec fn spec_same_but_active(a: Skill, b: Skill) -> bool {
    &&& b.id == a.id
    &&& b.function_id == a.function_id
    &&& b.skill_temp == a.skill_temp
    &&& b.cd_times == a.cd_times
    &&& b.turn_use_times == a.turn_use_times
}

} // verus!

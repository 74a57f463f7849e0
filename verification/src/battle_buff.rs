//! Buff state: an instance of a buff template living on a character or on
//! a map cell, with its remaining trigger count and keep-duration.

use vstd::prelude::*;

use crate::battle_enum::TargetType;
use crate::templates::BuffTemp;

verus! {

/// One active buff.  A buff whose template configures both counters as
/// zero is permanent and is never consumed or auto-removed.
#[derive(Clone, Debug)]
pub struct Buff {
    /// Id of the buff template this instance was made from.
    pub id: u32,
    /// Behaviour family decoded from the template.
    pub function_id: u32,
    /// Copy of the immutable template row.
    pub buff_temp: BuffTemp,
    /// Remaining trigger count.
    pub trigger_timesed: u32,
    /// Remaining keep-duration in turns.
    pub keep_times: u32,
    /// True iff both configured limits are zero.
    pub permanent: bool,
    /// Turn-order index the buff was installed on, for duration ticking.
    pub turn_index: Option<usize>,
    /// Character whose skill or buff installed this buff, if any.
    pub from_cter: Option<u32>,
    /// Skill that installed this buff, deactivated when the buff expires.
    pub from_skill: Option<u32>,
    /// For traps: users the trap is shown to.
    pub trap_view_users: Vec<u32>,
}

/// What a buff instance looks like right after creation from `temp`.
pub open spec fn spec_buff_fresh(
    b: Buff,
    temp: BuffTemp,
    turn_index: Option<usize>,
    from_cter: Option<u32>,
    from_skill: Option<u32>,
) -> bool {
    &&& b.id == temp.id
    &&& b.function_id == temp.function_id
    &&& b.buff_temp == temp
    &&& b.trigger_timesed == temp.trigger_times
    &&& b.keep_times == temp.keep_time
    &&& b.permanent == (temp.keep_time == 0 && temp.trigger_times == 0)
    &&& b.turn_index == turn_index
    &&& b.from_cter == from_cter
    &&& b.from_skill == from_skill
    &&& b.trap_view_users@.len() == 0
}

/// Well-formedness of a buff: its id, family and permanent flag agree with
/// its template, and the counters never exceed what was configured.
pub open spec fn buff_wf(b: Buff) -> bool {
    &&& b.id == b.buff_temp.id
    &&& b.function_id == b.buff_temp.function_id
    &&& b.permanent == (b.buff_temp.keep_time == 0 && b.buff_temp.trigger_times == 0)
    &&& b.trigger_timesed <= b.buff_temp.trigger_times
    &&& b.keep_times <= b.buff_temp.keep_time
}

impl Buff {
    /// A fresh buff instance of the template, counters fully charged.
    pub fn new(
        temp: &BuffTemp,
        turn_index: Option<usize>,
        from_cter: Option<u32>,
        from_skill: Option<u32>,
    ) -> (r: Buff)
        ensures
            spec_buff_fresh(r, *temp, turn_index, from_cter, from_skill),
            buff_wf(r),
    {
        Buff {
            id: temp.id,
            function_id: temp.function_id,
            buff_temp: *temp,
            trigger_timesed: temp.trigger_times,
            keep_times: temp.keep_time,
            permanent: temp.keep_time == 0 && temp.trigger_times == 0,
            turn_index,
            from_cter,
            from_skill,
            trap_view_users: Vec::new(),
        }
    }

    /// The buff instance's template id.
    pub fn get_id(&self) -> (r: u32)
        ensures
            r == self.id,
    {
        self.id
    }

    /// The target kind the buff's template names.
    pub fn get_target(&self) -> (r: TargetType)
        ensures
            r.spec_into_u32() == if self.buff_temp.target <= 25 {
                self.buff_temp.target
            } else {
                0
            },
    {
        TargetType::from(self.buff_temp.target)
    }

    /// Spends one trigger; the count never goes below zero.
    pub fn sub_trigger_timesed(&mut self)
        ensures
            final(self).trigger_timesed == if old(self).trigger_timesed > 0 {
                (old(self).trigger_timesed - 1) as u32
            } else {
                0u32
            },
            unchanged_but_trigger_timesed(*old(self), *final(self)),
    {
        if self.trigger_timesed > 0 {
            self.trigger_timesed = self.trigger_timesed - 1;
        }
    }

    /// Spends one turn of duration; the count never goes below zero.
    pub fn sub_keep_times(&mut self)
        ensures
            final(self).keep_times == if old(self).keep_times > 0 {
                (old(self).keep_times - 1) as u32
            } else {
                0u32
            },
            unchanged_but_keep_times(*old(self), *final(self)),
    {
        if self.keep_times > 0 {
            self.keep_times = self.keep_times - 1;
        }
    }
}

/// All fields of `b` equal those of `a`, except the trigger counter.
pub open spec fn unchanged_but_trigger_timesed(a: Buff, b: Buff) -> bool {
    &&& b.id == a.id
    &&& b.function_id == a.function_id
    &&& b.buff_temp == a.buff_temp
    &&& b.keep_times == a.keep_times
    &&& b.permanent == a.permanent
    &&& b.turn_index == a.turn_index
    &&& b.from_cter == a.from_cter
    &&& b.from_skill == a.from_skill
    &&& b.trap_view_users == a.trap_view_users
}

/// All fields of `b` equal those of `a`, except the keep-duration counter.
pub open spec fn unchanged_but_keep_times(a: Buff, b: Buff) -> bool {
    &&& b.id == a.id
    &&& b.function_id == a.function_id
    &&& b.buff_temp == a.buff_temp
    &&& b.trigger_timesed == a.trigger_timesed
    &&& b.permanent == a.permanent
    &&& b.turn_index == a.turn_index
    &&& b.from_cter == a.from_cter
    &&& b.from_skill == a.from_skill
    &&& b.trap_view_users == a.trap_view_users
}

} // verus!

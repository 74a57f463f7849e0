//! Pre-battle team membership: who belongs to a team and whether every
//! member has readied up.

use vstd::prelude::*;

verus! {

/// Readiness of one member.
#[derive(Clone, Copy, Debug, PartialEq, Eq, Structural)]
pub enum MemberState {
    NotReady,
    Ready,
}

/// One room member.
#[derive(Clone, Debug)]
pub struct Member {
    pub user_id: u32,
    pub state: MemberState,
    pub nick_name: String,
}

impl Member {
    /// The member's user id.
    pub fn get_user_id(&self) -> (r: u32)
        ensures
            r == self.user_id,
    {
        self.user_id
    }
}

/// A team: its id and its members, one entry per user id.
#[derive(Clone, Debug)]
pub struct Team {
    pub id: u8,
    pub members: Vec<Member>,
}

/// Every member's user id occurs once.
pub open spec fn team_wf(t: Team) -> bool {
    forall|k: int, l: int|
        0 <= k < l < t.members@.len() ==> (#[trigger] t.members@[k]).user_id != (
        #[trigger] t.members@[l]).user_id
}

impl Team {
    /// A fresh, empty team.
    pub fn new(id: u8) -> (r: Team)
        ensures
            r.id == id,
            r.members@.len() == 0,
            team_wf(r),
    {
        Team { id, members: Vec::new() }
    }

    /// Position of the member with this user id, if any.
    fn find_member(&self, user_id: u32) -> (r: Option<usize>)
        ensures
            match r {
                Some(i) => i < self.members@.len() && self.members@[i as int].user_id == user_id,
                None => forall|i: int|
                    0 <= i < self.members@.len() ==> (#[trigger] self.members@[i]).user_id
                        != user_id,
            },
    {
        let mut i: usize = 0;
        while i < self.members.len()
            invariant
                0 <= i <= self.members@.len(),
                forall|j: int|
                    0 <= j < i ==> (#[trigger] self.members@[j]).user_id != user_id,
            decreases self.members@.len() - i,
        {
            if self.members[i].user_id == user_id {
                return Some(i);
            }
            i = i + 1;
        }
        None
    }

    /// True while the team holds a member with this user id.
    pub fn is_exist_member(&self, user_id: &u32) -> (r: bool)
        ensures
            r == (exists|i: int|
                0 <= i < self.members@.len() && (#[trigger] self.members@[i]).user_id == *user_id),
    {
        match self.find_member(*user_id) {
            Some(i) => {
                proof {
                    assert(self.members@[i as int].user_id == *user_id);
                }
                true
            },
            None => false,
        }
    }

    /// True when every member has readied up.
    pub fn check_ready(&self) -> (r: bool)
        ensures
            r == (forall|i: int|
                0 <= i < self.members@.len() ==> (#[trigger] self.members@[i]).state
                    != MemberState::NotReady),
    {
        let mut i: usize = 0;
        while i < self.members.len()
            invariant
                0 <= i <= self.members@.len(),
                forall|j: int|
                    0 <= j < i ==> (#[trigger] self.members@[j]).state != MemberState::NotReady,
            decreases self.members@.len() - i,
        {
            if self.members[i].state == MemberState::NotReady {
                return false;
            }
            i = i + 1;
        }
        true
    }

    /// Adds the member; an existing entry with the same user id is
    /// replaced.
    pub fn add_member(&mut self, member: Member)
        requires
            team_wf(*old(self)),
        ensures
            team_wf(*final(self)),
            final(self).id == old(self).id,
            exists|i: int|
                0 <= i < final(self).members@.len() && final(self).members@[i] == member,
            forall|i: int|
                0 <= i < final(self).members@.len() && (#[trigger] final(self).members@[i]).user_id
                    != member.user_id ==> old(self).members@.contains(final(self).members@[i]),
            forall|i: int|
                0 <= i < old(self).members@.len() && (#[trigger] old(self).members@[i]).user_id
                    != member.user_id ==> final(self).members@.contains(old(self).members@[i]),
    {
        let pos = self.find_member(member.user_id);
        match pos {
            Some(i) => {
                let ghost pre = self.members@;
                let slot = &mut self.members[i];
                *slot = member;
                proof {
                    assert(self.members@[i as int] == member);
                    assert(forall|k: int|
                        0 <= k < self.members@.len() && k != i ==> self.members@[k]
                            == #[trigger] pre[k]);
                    assert forall|k: int|
                        0 <= k < self.members@.len() && (#[trigger] self.members@[k]).user_id
                            != member.user_id implies old(self).members@.contains(
                        self.members@[k],
                    ) by {
                        assert(self.members@[k] == pre[k]);
                    }
                    assert forall|k: int|
                        0 <= k < pre.len() && (#[trigger] pre[k]).user_id
                            != member.user_id implies self.members@.contains(pre[k]) by {
                        assert(k != i);
                        assert(self.members@[k] == pre[k]);
                    }
                }
            },
            None => {
                let ghost pre = self.members@;
                self.members.push(member);
                proof {
                    assert(self.members@[self.members@.len() - 1] == member);
                    assert forall|k: int|
                        0 <= k < self.members@.len() && (#[trigger] self.members@[k]).user_id
                            != member.user_id implies old(self).members@.contains(
                        self.members@[k],
                    ) by {
                        assert(k < pre.len());
                        assert(self.members@[k] == pre[k]);
                    }
                    assert forall|k: int|
                        0 <= k < pre.len() && (#[trigger] pre[k]).user_id
                            != member.user_id implies self.members@.contains(pre[k]) by {
                        assert(self.members@[k] == pre[k]);
                    }
                }
            },
        }
    }

    /// Takes the member with this user id out of the team and hands it
    /// back, or nothing when no such member is there.
    pub fn remove_member(&mut self, user_id: &u32) -> (r: Option<Member>)
        requires
            team_wf(*old(self)),
        ensures
            team_wf(*final(self)),
            final(self).id == old(self).id,
            match r {
                Some(m) => m.user_id == *user_id && (exists|i: int|
                    0 <= i < old(self).members@.len()
                        && old(self).members@[i] == m
                        && final(self).members@ == old(self).members@.remove(i)),
                None => final(self).members@ == old(self).members@ && (forall|i: int|
                    0 <= i < old(self).members@.len() ==> (#[trigger] old(
                        self,
                    ).members@[i]).user_id != *user_id),
            },
    {
        let pos = self.find_member(*user_id);
        match pos {
            Some(i) => {
                let m = self.members.remove(i);
                proof {
                    assert(old(self).members@[i as int] == m);
                    assert forall|k: int, l: int|
                        0 <= k < l < self.members@.len() implies (
                    #[trigger] self.members@[k]).user_id != (
                    #[trigger] self.members@[l]).user_id by {
                        let ko: int = if k < i { k } else { k + 1 };
                        let lo: int = if l < i { l } else { l + 1 };
                        assert(self.members@[k] == old(self).members@[ko]);
                        assert(self.members@[l] == old(self).members@[lo]);
                    }
                }
                Some(m)
            },
            None => None,
        }
    }

    /// The member with this user id, if the team holds one.
    pub fn get_member_mut(&mut self, user_id: &u32) -> (r: Option<&mut Member>)
        ensures
            final(self).id == old(self).id,
            match r {
                Some(m) => exists|i: int|
                    0 <= i < old(self).members@.len() && old(self).members@[i] == *m && (
                    *m).user_id == *user_id && final(self).members@ == old(
                        self,
                    ).members@.update(i, *final(m)),
                None => final(self).members@ == old(self).members@ && (forall|i: int|
                    0 <= i < old(self).members@.len() ==> (#[trigger] old(
                        self,
                    ).members@[i]).user_id != *user_id),
            },
    {
        let pos = self.find_member(*user_id);
        match pos {
            Some(i) => Some(&mut self.members[i]),
            None => None,
        }
    }

    /// How many members the team holds.
    pub fn get_member_count(&self) -> (r: usize)
        ensures
            r == self.members@.len(),
    {
        self.members.len()
    }
}

} // verus!

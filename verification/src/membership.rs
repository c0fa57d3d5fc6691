//! The rules of membership: who may join a group, who may leave it, and
//! what an invitation changes.

use crate::error::{ErrorKind, StoreError};
use vstd::prelude::*;

verus! {

/// What the store records about one user and one group: whether the user
/// is a member, and whether a departure of the user is on record.
#[derive(Debug, Clone, Copy, PartialEq, Eq, Structural)]
pub struct Standing {
    pub member: bool,
    pub departed: bool,
}

/// The answer to a request to join a group.
#[derive(Debug, Clone, Copy, PartialEq, Eq, Structural)]
pub enum Admission {
    /// The user is a member already: the user enters, nothing is recorded.
    AlreadyMember,
    /// The user left the group and was not invited back: the user stays out.
    Barred,
    /// The user becomes a member.
    Admitted,
}

impl Standing {
    /// The standing that two counts of records stand for.
    pub open spec fn of_counts(memberships: int, departures: int) -> Standing {
        Standing { member: memberships > 0, departed: departures > 0 }
    }

    /// The standing of a user of whom the store holds `memberships`
    /// membership records and `departures` departure records for a group.
    pub fn from_counts(memberships: i64, departures: i64) -> (standing: Standing)
        ensures
            standing == Standing::of_counts(memberships as int, departures as int),
    {
        Standing { member: memberships > 0, departed: departures > 0 }
    }

    /// How a request to join is answered.
    pub open spec fn admission(self) -> Admission {
        if self.member {
            Admission::AlreadyMember
        } else if self.departed {
            Admission::Barred
        } else {
            Admission::Admitted
        }
    }

    /// What a request to join returns to the user.
    pub open spec fn join_result(self) -> Result<(), StoreError> {
        match self.admission() {
            Admission::Barred => Err(StoreError::RejoinBarred),
            _ => Ok(()),
        }
    }

    /// The standing after a request to join: only an admission changes it.
    pub open spec fn after_join(self) -> Standing {
        match self.admission() {
            Admission::Admitted => Standing { member: true, departed: false },
            _ => self,
        }
    }

    /// What a request to leave returns to the user.
    pub open spec fn leave_result(self) -> Result<(), StoreError> {
        if self.member {
            Ok(())
        } else {
            Err(StoreError::NotAMember)
        }
    }

    /// The standing after a request to leave: a member is one no longer, and
    /// the departure is on record.
    pub open spec fn after_leave(self) -> Standing {
        if self.member {
            Standing { member: false, departed: true }
        } else {
            self
        }
    }

    /// What an invitation of this user by a member of the group returns.
    pub open spec fn invite_result(self) -> Result<(), StoreError> {
        if self.member {
            Err(StoreError::AlreadyInGroup)
        } else {
            Ok(())
        }
    }

    /// The standing after an invitation by a member of the group: the user
    /// is a member, and no departure is on record any more.
    pub open spec fn after_invite(self) -> Standing {
        if self.member {
            self
        } else {
            Standing { member: true, departed: false }
        }
    }

    /// The standing after `attempts` requests to join in a row.
    pub open spec fn after_joins(self, attempts: nat) -> Standing
        decreases attempts,
    {
        if attempts == 0 {
            self
        } else {
            self.after_join().after_joins((attempts - 1) as nat)
        }
    }
}

/// Answers a request to join a group from the user's standing in it.
pub fn answer_join(standing: Standing) -> (admission: Admission)
    ensures
        admission == standing.admission(),
{
    if standing.member {
        Admission::AlreadyMember
    } else if standing.departed {
        Admission::Barred
    } else {
        Admission::Admitted
    }
}

/// What a request to join returns to a user of the given standing, once
/// an admission is on record: a member and a newcomer are let in, a user
/// who left the group is refused.
pub fn join_reply(standing: Standing) -> (reply: Result<(), StoreError>)
    ensures
        reply == standing.join_result(),
{
    if !standing.member && standing.departed {
        Err(StoreError::RejoinBarred)
    } else {
        Ok(())
    }
}

/// Answers a request to leave a group from the number of membership
/// records that were deleted for it: with none, the user was no member.
pub fn confirm_departure(deleted: usize) -> (result: Result<(), StoreError>)
    ensures
        result == Standing::of_counts(deleted as int, 0).leave_result(),
{
    if deleted == 0 {
        Err(StoreError::NotAMember)
    } else {
        Ok(())
    }
}

/// Demands that the acting user is a member of the group, from the number
/// of membership records found: with none, the action is refused.
pub fn require_membership(memberships: i64) -> (result: Result<(), StoreError>)
    ensures
        result == if memberships == 0 {
            Err::<(), StoreError>(StoreError::NotAMember)
        } else {
            Ok::<(), StoreError>(())
        },
{
    if memberships == 0 {
        Err(StoreError::NotAMember)
    } else {
        Ok(())
    }
}

/// Answers an invitation by a member from the number of membership records
/// found for the invited user: a member cannot be invited.
pub fn accept_invitation(memberships: i64) -> (result: Result<(), StoreError>)
    ensures
        result == Standing::of_counts(memberships as int, 0).invite_result(),
{
    if memberships > 0 {
        Err(StoreError::AlreadyInGroup)
    } else {
        Ok(())
    }
}

/// Requests to join do not change the standing of a user who is barred.
pub proof fn lemma_barred_stays_barred(standing: Standing, attempts: nat)
    requires
        standing.admission() == Admission::Barred,
    ensures
        standing.after_joins(attempts) == standing,
    decreases attempts,
{
    if attempts > 0 {
        lemma_barred_stays_barred(standing, (attempts - 1) as nat);
    }
}

/// The rejoin lock. A member who leaves a group cannot join it again: every
/// request to join, however many were made before it, is refused with a
/// membership error. Only the invitation by a member lifts the lock, and
/// the user is then a member again.
pub proof fn lemma_rejoin_lock(standing: Standing, attempts: nat)
    requires
        standing.member,
    ensures
        standing.leave_result() is Ok,
        standing.after_leave().after_joins(attempts).join_result() == Err::<(), StoreError>(
            StoreError::RejoinBarred,
        ),
        StoreError::RejoinBarred.spec_kind() == ErrorKind::Membership,
        standing.after_leave().after_joins(attempts).invite_result() is Ok,
        standing.after_leave().after_joins(attempts).after_invite().join_result() is Ok,
        standing.after_leave().after_joins(attempts).after_invite().member,
{
    lemma_barred_stays_barred(standing.after_leave(), attempts);
}

} // verus!

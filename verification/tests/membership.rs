use ruggine::error::StoreError;
use ruggine::membership::{
    accept_invitation, answer_join, confirm_departure, join_reply, require_membership, Admission,
    Standing,
};

#[test]
fn standing_from_counts() {
    assert_eq!(Standing::from_counts(0, 0), Standing { member: false, departed: false });
    assert_eq!(Standing::from_counts(1, 0), Standing { member: true, departed: false });
    assert_eq!(Standing::from_counts(0, 1), Standing { member: false, departed: true });
    assert_eq!(Standing::from_counts(2, 3), Standing { member: true, departed: true });
    assert_eq!(Standing::from_counts(-1, -1), Standing { member: false, departed: false });
}

#[test]
fn answer_join_for_each_standing() {
    assert_eq!(answer_join(Standing { member: false, departed: false }), Admission::Admitted);
    assert_eq!(answer_join(Standing { member: false, departed: true }), Admission::Barred);
    assert_eq!(answer_join(Standing { member: true, departed: false }), Admission::AlreadyMember);
    assert_eq!(answer_join(Standing { member: true, departed: true }), Admission::AlreadyMember);
}

#[test]
fn confirm_departure_needs_a_deleted_membership() {
    assert_eq!(confirm_departure(0), Err(StoreError::NotAMember));
    assert_eq!(confirm_departure(1), Ok(()));
    assert_eq!(confirm_departure(2), Ok(()));
}

#[test]
fn require_membership_refuses_without_a_record() {
    assert_eq!(require_membership(0), Err(StoreError::NotAMember));
    assert_eq!(require_membership(1), Ok(()));
}

#[test]
fn accept_invitation_refuses_a_member() {
    assert_eq!(accept_invitation(0), Ok(()));
    assert_eq!(accept_invitation(1), Err(StoreError::AlreadyInGroup));
}

#[test]
fn join_reply_for_each_standing() {
    assert_eq!(join_reply(Standing { member: false, departed: false }), Ok(()));
    assert_eq!(
        join_reply(Standing { member: false, departed: true }),
        Err(StoreError::RejoinBarred)
    );
    assert_eq!(join_reply(Standing { member: true, departed: false }), Ok(()));
    assert_eq!(join_reply(Standing { member: true, departed: true }), Ok(()));
}

//! The failures that a request can meet, and the classes they fall into.

use crate::protocol::ProtocolError;
use vstd::prelude::*;
use vstd::string::*;

verus! {

/// The classes of failure that the service tells apart.
#[derive(Debug, Clone, Copy, PartialEq, Eq, Structural)]
pub enum ErrorKind {
    /// Bad credentials, or a user name that is taken.
    Authentication,
    /// The action needs an authenticated session, or a membership that is
    /// not held.
    Authorization,
    /// A group or user name that resolves to nothing.
    NotFound,
    /// The membership rules forbid the action.
    Membership,
    /// A line that is no message.
    Decode,
    /// A socket that cannot be read or written.
    Transport,
    /// The store itself failed.
    Storage,
}

/// Why the store refused or failed an operation.
#[derive(Debug, Clone, PartialEq, Eq)]
pub enum StoreError {
    /// The user name to register is in use.
    UsernameTaken,
    /// No account has the user name that tries to log in.
    UnknownAccount,
    /// The password does not match the account's.
    InvalidPassword,
    /// No group has the given name.
    GroupNotFound,
    /// No group has this name, which the text of the error repeats.
    NoSuchGroup(String),
    /// No user has the given name.
    UserNotFound,
    /// The acting user is not a member of the group.
    NotAMember,
    /// The invited user is a member of the group already.
    AlreadyInGroup,
    /// The user left the group and has not been invited back.
    RejoinBarred,
    /// The database or the password hashing failed, with its own words.
    Backend(String),
}

impl StoreError {
    /// The text of this error, as it is shown to the user.
    pub open spec fn text(&self) -> Seq<char> {
        match *self {
            StoreError::UsernameTaken => "Username already exists"@,
            StoreError::UnknownAccount => "User not found"@,
            StoreError::InvalidPassword => "Invalid password"@,
            StoreError::GroupNotFound => "Group not found"@,
            StoreError::NoSuchGroup(name) => "Group '"@ + name@ + "' not found"@,
            StoreError::UserNotFound => "User not found"@,
            StoreError::NotAMember => "You are not a member of this group"@,
            StoreError::AlreadyInGroup => "User is already in the group"@,
            StoreError::RejoinBarred => "You cannot rejoin a group you have left. You need to be invited by another member."@,
            StoreError::Backend(detail) => detail@,
        }
    }

    /// Renders the error as text.
    pub fn to_string(&self) -> (rendered: String)
        ensures
            rendered@ == self.text(),
    {
        match self {
            StoreError::UsernameTaken => String::from_str("Username already exists"),
            StoreError::UnknownAccount => String::from_str("User not found"),
            StoreError::InvalidPassword => String::from_str("Invalid password"),
            StoreError::GroupNotFound => String::from_str("Group not found"),
            StoreError::NoSuchGroup(name) => String::from_str("Group '").concat(
                name.as_str(),
            ).concat("' not found"),
            StoreError::UserNotFound => String::from_str("User not found"),
            StoreError::NotAMember => String::from_str("You are not a member of this group"),
            StoreError::AlreadyInGroup => String::from_str("User is already in the group"),
            StoreError::RejoinBarred => String::from_str(
                "You cannot rejoin a group you have left. You need to be invited by another member.",
            ),
            StoreError::Backend(detail) => detail.clone(),
        }
    }

    /// The class of this error.
    pub open spec fn spec_kind(&self) -> ErrorKind {
        match *self {
            StoreError::UsernameTaken => ErrorKind::Authentication,
            StoreError::UnknownAccount => ErrorKind::Authentication,
            StoreError::InvalidPassword => ErrorKind::Authentication,
            StoreError::GroupNotFound => ErrorKind::NotFound,
            StoreError::NoSuchGroup(_) => ErrorKind::NotFound,
            StoreError::UserNotFound => ErrorKind::NotFound,
            StoreError::NotAMember => ErrorKind::Authorization,
            StoreError::AlreadyInGroup => ErrorKind::Membership,
            StoreError::RejoinBarred => ErrorKind::Membership,
            StoreError::Backend(_) => ErrorKind::Storage,
        }
    }

    /// The class of this error.
    #[verifier::when_used_as_spec(spec_kind)]
    pub fn kind(&self) -> (kind: ErrorKind)
        ensures
            kind == self.spec_kind(),
    {
        match self {
            StoreError::UsernameTaken => ErrorKind::Authentication,
            StoreError::UnknownAccount => ErrorKind::Authentication,
            StoreError::InvalidPassword => ErrorKind::Authentication,
            StoreError::GroupNotFound => ErrorKind::NotFound,
            StoreError::NoSuchGroup(_) => ErrorKind::NotFound,
            StoreError::UserNotFound => ErrorKind::NotFound,
            StoreError::NotAMember => ErrorKind::Authorization,
            StoreError::AlreadyInGroup => ErrorKind::Membership,
            StoreError::RejoinBarred => ErrorKind::Membership,
            StoreError::Backend(_) => ErrorKind::Storage,
        }
    }
}

/// The class of a protocol error: a failed network exchange is a transport
/// failure, everything else a line that is no message.
pub fn protocol_error_kind(error: &ProtocolError) -> (kind: ErrorKind)
    ensures
        kind == if error is NetworkError {
            ErrorKind::Transport
        } else {
            ErrorKind::Decode
        },
{
    match error {
        ProtocolError::NetworkError(_) => ErrorKind::Transport,
        _ => ErrorKind::Decode,
    }
}

} // verus!

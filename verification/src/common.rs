//! Data shared by the client and the server.

use crate::text::str_eq;
use vstd::prelude::*;

verus! {

/// Stable identifier of a user.
pub type UserId = String;

/// Stable identifier of a group.
pub type GroupId = String;

/// Calls `uuid::Uuid::new_v4` and renders the identifier as text. The
/// identifier is random, so nothing is claimed of it.
#[verifier::external_body]
pub(crate) fn fresh_id() -> (id: String) {
    uuid::Uuid::new_v4().to_string()
}

/// Calls `chrono::Utc::now` and renders the instant with
/// `chrono::DateTime::to_rfc3339`. The instant is read from the system
/// clock, so nothing is claimed of the text. On a machine whose clock
/// reads a time before 1970 the call does not return.
#[verifier::external_body]
pub(crate) fn timestamp_now() -> (text: String) {
    chrono::Utc::now().to_rfc3339()
}

/// Whether `id` occurs among `ids`, compared as text.
pub fn contains_id(ids: &Vec<UserId>, id: &str) -> (found: bool)
    ensures
        found == ids.deep_view().contains(id@),
{
    let mut i: usize = 0;
    while i < ids.len()
        invariant
            i <= ids.len(),
            forall|j: int| 0 <= j < i ==> ids.deep_view()[j] != id@,
        decreases ids.len() - i,
    {
        if str_eq(ids[i].as_str(), id) {
            assert(ids.deep_view()[i as int] == id@);
            return true;
        }
        i += 1;
    }
    false
}

/// A named group of users.
#[derive(Debug, PartialEq, Eq)]
pub struct Group {
    pub id: GroupId,
    pub name: String,
    pub members: Vec<UserId>,
    pub creator_id: UserId,
    pub created_at: String,
}

/// The mathematical content of a [`Group`].
pub struct GroupView {
    pub id: Seq<char>,
    pub name: Seq<char>,
    pub members: Seq<Seq<char>>,
    pub creator_id: Seq<char>,
    pub created_at: Seq<char>,
}

impl DeepView for Group {
    type V = GroupView;

    open spec fn deep_view(&self) -> GroupView {
        GroupView {
            id: self.id@,
            name: self.name@,
            members: self.members.deep_view(),
            creator_id: self.creator_id@,
            created_at: self.created_at@,
        }
    }
}

impl Group {
    /// A new group whose only member is its creator. The identifier and
    /// the creation time come from outside and are not determined here.
    pub fn new(name: String, creator_id: UserId) -> (group: Group)
        ensures
            group.name@ == name@,
            group.creator_id@ == creator_id@,
            group.members.deep_view() == seq![creator_id@],
    {
        let mut members: Vec<UserId> = Vec::new();
        members.push(creator_id.clone());
        Group { id: fresh_id(), name, members, creator_id, created_at: timestamp_now() }
    }

    /// Adds a member unless the user already is one.
    pub fn add_member(&mut self, user_id: UserId)
        ensures
            final(self).deep_view() == (GroupView {
                members: if old(self).members.deep_view().contains(user_id@) {
                    old(self).members.deep_view()
                } else {
                    old(self).members.deep_view().push(user_id@)
                },
                ..old(self).deep_view()
            }),
    {
        if !contains_id(&self.members, user_id.as_str()) {
            self.members.push(user_id);
            assert(self.members.deep_view() =~= old(self).members.deep_view().push(user_id@));
        }
    }

    /// Removes every occurrence of a user from the members, keeping the
    /// order of the others.
    pub fn remove_member(&mut self, user_id: &UserId)
        ensures
            final(self).deep_view() == (GroupView {
                members: old(self).members.deep_view().filter(|id: Seq<char>| id != user_id@),
                ..old(self).deep_view()
            }),
    {
        let ghost keep = |id: Seq<char>| id != user_id@;
        let mut kept: Vec<UserId> = Vec::new();
        let mut i: usize = 0;
        while i < self.members.len()
            invariant
                i <= self.members.len(),
                *self == *old(self),
                keep == (|id: Seq<char>| id != user_id@),
                kept.deep_view() == self.members.deep_view().take(i as int).filter(keep),
            decreases self.members.len() - i,
        {
            proof {
                let members = self.members.deep_view();
                assert(members.take(i + 1).drop_last() =~= members.take(i as int));
                reveal(Seq::filter);
            }
            if self.members[i] != *user_id {
                kept.push(self.members[i].clone());
            }
            i += 1;
        }
        assert(self.members.deep_view().take(i as int) =~= self.members.deep_view());
        self.members = kept;
    }
}

/// One chat message as it is shown to the members of a group.
#[derive(Debug, PartialEq, Eq)]
pub struct ChatMessage {
    pub id: String,
    pub content: String,
    pub username: String,
    pub timestamp: String,
}

/// The mathematical content of a [`ChatMessage`].
pub struct ChatMessageView {
    pub id: Seq<char>,
    pub content: Seq<char>,
    pub username: Seq<char>,
    pub timestamp: Seq<char>,
}

impl DeepView for ChatMessage {
    type V = ChatMessageView;

    open spec fn deep_view(&self) -> ChatMessageView {
        ChatMessageView {
            id: self.id@,
            content: self.content@,
            username: self.username@,
            timestamp: self.timestamp@,
        }
    }
}

impl Clone for ChatMessage {
    fn clone(&self) -> (copy: ChatMessage)
        ensures
            copy == *self,
    {
        ChatMessage {
            id: self.id.clone(),
            content: self.content.clone(),
            username: self.username.clone(),
            timestamp: self.timestamp.clone(),
        }
    }
}

impl Clone for Group {
    fn clone(&self) -> (copy: Group)
        ensures
            copy.deep_view() == self.deep_view(),
    {
        let members = self.members.clone();
        Group {
            id: self.id.clone(),
            name: self.name.clone(),
            members,
            creator_id: self.creator_id.clone(),
            created_at: self.created_at.clone(),
        }
    }
}

/// A user account as the server sees it while the user is connected.
#[derive(Debug, PartialEq, Eq)]
pub struct User {
    pub id: UserId,
    pub username: String,
    pub connected: bool,
    pub joined_at: String,
}

/// The mathematical content of a [`User`].
pub struct UserView {
    pub id: Seq<char>,
    pub username: Seq<char>,
    pub connected: bool,
    pub joined_at: Seq<char>,
}

impl DeepView for User {
    type V = UserView;

    open spec fn deep_view(&self) -> UserView {
        UserView {
            id: self.id@,
            username: self.username@,
            connected: self.connected,
            joined_at: self.joined_at@,
        }
    }
}

impl Clone for User {
    fn clone(&self) -> (copy: User)
        ensures
            copy == *self,
    {
        User {
            id: self.id.clone(),
            username: self.username.clone(),
            connected: self.connected,
            joined_at: self.joined_at.clone(),
        }
    }
}

impl User {
    /// A connected user with a fresh identifier, joined now.
    pub fn new(username: String) -> (user: User)
        ensures
            user.username@ == username@,
            user.connected,
    {
        User { id: fresh_id(), username, connected: true, joined_at: timestamp_now() }
    }
}

/// A message posted to a group, as the store recorded it.
#[derive(Debug, PartialEq, Eq)]
pub struct Message {
    pub id: String,
    pub sender: UserId,
    pub group_id: GroupId,
    pub content: String,
    pub timestamp: String,
}

/// The mathematical content of a [`Message`].
pub struct MessageView {
    pub id: Seq<char>,
    pub sender: Seq<char>,
    pub group_id: Seq<char>,
    pub content: Seq<char>,
    pub timestamp: Seq<char>,
}

impl DeepView for Message {
    type V = MessageView;

    open spec fn deep_view(&self) -> MessageView {
        MessageView {
            id: self.id@,
            sender: self.sender@,
            group_id: self.group_id@,
            content: self.content@,
            timestamp: self.timestamp@,
        }
    }
}

impl Clone for Message {
    fn clone(&self) -> (copy: Message)
        ensures
            copy == *self,
    {
        Message {
            id: self.id.clone(),
            sender: self.sender.clone(),
            group_id: self.group_id.clone(),
            content: self.content.clone(),
            timestamp: self.timestamp.clone(),
        }
    }
}

impl Message {
    /// A message with the given identity and content, stamped now.
    pub fn new(id: String, sender: UserId, group_id: GroupId, content: String) -> (message: Message)
        ensures
            message.id@ == id@,
            message.sender@ == sender@,
            message.group_id@ == group_id@,
            message.content@ == content@,
    {
        Message { id, sender, group_id, content, timestamp: timestamp_now() }
    }
}

/// An invitation of one user into a group by another.
#[derive(Debug, PartialEq, Eq)]
pub struct GroupInvite {
    pub id: String,
    pub group_id: GroupId,
    pub invited_user: UserId,
    pub inviter: UserId,
    pub timestamp: String,
}

/// The mathematical content of a [`GroupInvite`].
pub struct GroupInviteView {
    pub id: Seq<char>,
    pub group_id: Seq<char>,
    pub invited_user: Seq<char>,
    pub inviter: Seq<char>,
    pub timestamp: Seq<char>,
}

impl DeepView for GroupInvite {
    type V = GroupInviteView;

    open spec fn deep_view(&self) -> GroupInviteView {
        GroupInviteView {
            id: self.id@,
            group_id: self.group_id@,
            invited_user: self.invited_user@,
            inviter: self.inviter@,
            timestamp: self.timestamp@,
        }
    }
}

impl Clone for GroupInvite {
    fn clone(&self) -> (copy: GroupInvite)
        ensures
            copy == *self,
    {
        GroupInvite {
            id: self.id.clone(),
            group_id: self.group_id.clone(),
            invited_user: self.invited_user.clone(),
            inviter: self.inviter.clone(),
            timestamp: self.timestamp.clone(),
        }
    }
}

impl GroupInvite {
    /// An invitation with a fresh identifier, issued now.
    pub fn new(group_id: GroupId, invited_user: UserId, inviter: UserId) -> (invite: GroupInvite)
        ensures
            invite.group_id@ == group_id@,
            invite.invited_user@ == invited_user@,
            invite.inviter@ == inviter@,
    {
        GroupInvite { id: fresh_id(), group_id, invited_user, inviter, timestamp: timestamp_now() }
    }
}

/// Counters of the server's activity at one instant.
#[derive(Debug, PartialEq, Eq)]
pub struct ServerStats {
    pub timestamp: String,
    pub cpu_time_ms: u64,
    pub active_connections: usize,
    pub total_messages: usize,
    pub total_groups: usize,
    pub total_users: usize,
}

impl Clone for ServerStats {
    fn clone(&self) -> (copy: ServerStats)
        ensures
            copy == *self,
    {
        ServerStats {
            timestamp: self.timestamp.clone(),
            cpu_time_ms: self.cpu_time_ms,
            active_connections: self.active_connections,
            total_messages: self.total_messages,
            total_groups: self.total_groups,
            total_users: self.total_users,
        }
    }
}

impl ServerStats {
    /// The given counters, stamped now.
    pub fn new(
        cpu_time_ms: u64,
        active_connections: usize,
        total_messages: usize,
        total_groups: usize,
        total_users: usize,
    ) -> (stats: ServerStats)
        ensures
            stats.cpu_time_ms == cpu_time_ms,
            stats.active_connections == active_connections,
            stats.total_messages == total_messages,
            stats.total_groups == total_groups,
            stats.total_users == total_users,
    {
        ServerStats {
            timestamp: timestamp_now(),
            cpu_time_ms,
            active_connections,
            total_messages,
            total_groups,
            total_users,
        }
    }
}

} // verus!

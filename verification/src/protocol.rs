//! The messages that client and server exchange, one per line of text.

use crate::common::{ChatMessage, ChatMessageView, Group, GroupView, Message, MessageView, UserId};
use crate::text::{trim, trimmed};
use vstd::prelude::*;
use vstd::string::*;

verus! {

/// A request of a client or a response of the server.
#[derive(Debug, Clone, PartialEq, Eq)]
#[allow(inconsistent_fields)]
pub enum ProtocolMessage {
    Register { username: String, password: String },
    Login { username: String, password: String },
    CreateGroup { name: String },
    JoinGroup { group_name: String },
    LeaveGroup { group_name: String },
    QuitGroup,
    InviteUser { username: String, group_name: String },
    SendMessage { content: String, group_name: String },
    ListGroups,
    ListUsers,
    ListGroupUsers { group_name: String },
    GoHome,
    Help,
    Quit,
    AuthResult { success: bool, user_id: Option<UserId>, message: String },
    GroupCreated { group: Group },
    GroupJoined { group: Group, recent_messages: Vec<ChatMessage> },
    GroupLeft,
    GroupQuit,
    UserInvited { username: String },
    MessageReceived { message: Message, recent_messages: Vec<ChatMessage> },
    ReloadMessages { recent_messages: Vec<ChatMessage> },
    GroupListResponse { groups: Vec<Group> },
    UserListResponse { users: Vec<String> },
    Error { message: String },
    /// A request was carried out; the wire calls this message `Ok`.
    Okay { message: String },
    Success { message: String },
    UserList { users: Vec<String> },
    MessageList { messages: Vec<ChatMessage> },
    StateChanged { in_group: bool, group_name: Option<String> },
    Ping,
    Pong,
}

/// The mathematical content of a [`ProtocolMessage`].
#[allow(inconsistent_fields)]
pub enum ProtocolMessageView {
    Register { username: Seq<char>, password: Seq<char> },
    Login { username: Seq<char>, password: Seq<char> },
    CreateGroup { name: Seq<char> },
    JoinGroup { group_name: Seq<char> },
    LeaveGroup { group_name: Seq<char> },
    QuitGroup,
    InviteUser { username: Seq<char>, group_name: Seq<char> },
    SendMessage { content: Seq<char>, group_name: Seq<char> },
    ListGroups,
    ListUsers,
    ListGroupUsers { group_name: Seq<char> },
    GoHome,
    Help,
    Quit,
    AuthResult { success: bool, user_id: Option<Seq<char>>, message: Seq<char> },
    GroupCreated { group: GroupView },
    GroupJoined { group: GroupView, recent_messages: Seq<ChatMessageView> },
    GroupLeft,
    GroupQuit,
    UserInvited { username: Seq<char> },
    MessageReceived { message: MessageView, recent_messages: Seq<ChatMessageView> },
    ReloadMessages { recent_messages: Seq<ChatMessageView> },
    GroupListResponse { groups: Seq<GroupView> },
    UserListResponse { users: Seq<Seq<char>> },
    Error { message: Seq<char> },
    Okay { message: Seq<char> },
    Success { message: Seq<char> },
    UserList { users: Seq<Seq<char>> },
    MessageList { messages: Seq<ChatMessageView> },
    StateChanged { in_group: bool, group_name: Option<Seq<char>> },
    Ping,
    Pong,
}

impl DeepView for ProtocolMessage {
    type V = ProtocolMessageView;

    open spec fn deep_view(&self) -> ProtocolMessageView {
        match *self {
            ProtocolMessage::Register { username, password } => ProtocolMessageView::Register {
                username: username@,
                password: password@,
            },
            ProtocolMessage::Login { username, password } => ProtocolMessageView::Login {
                username: username@,
                password: password@,
            },
            ProtocolMessage::CreateGroup { name } => ProtocolMessageView::CreateGroup { name: name@ },
            ProtocolMessage::JoinGroup { group_name } => ProtocolMessageView::JoinGroup {
                group_name: group_name@,
            },
            ProtocolMessage::LeaveGroup { group_name } => ProtocolMessageView::LeaveGroup {
                group_name: group_name@,
            },
            ProtocolMessage::QuitGroup => ProtocolMessageView::QuitGroup,
            ProtocolMessage::InviteUser { username, group_name } => ProtocolMessageView::InviteUser {
                username: username@,
                group_name: group_name@,
            },
            ProtocolMessage::SendMessage { content, group_name } => ProtocolMessageView::SendMessage {
                content: content@,
                group_name: group_name@,
            },
            ProtocolMessage::ListGroups => ProtocolMessageView::ListGroups,
            ProtocolMessage::ListUsers => ProtocolMessageView::ListUsers,
            ProtocolMessage::ListGroupUsers { group_name } => ProtocolMessageView::ListGroupUsers {
                group_name: group_name@,
            },
            ProtocolMessage::GoHome => ProtocolMessageView::GoHome,
            ProtocolMessage::Help => ProtocolMessageView::Help,
            ProtocolMessage::Quit => ProtocolMessageView::Quit,
            ProtocolMessage::AuthResult { success, user_id, message } => ProtocolMessageView::AuthResult {
                success,
                user_id: user_id.deep_view(),
                message: message@,
            },
            ProtocolMessage::GroupCreated { group } => ProtocolMessageView::GroupCreated {
                group: group.deep_view(),
            },
            ProtocolMessage::GroupJoined { group, recent_messages } => ProtocolMessageView::GroupJoined {
                group: group.deep_view(),
                recent_messages: recent_messages.deep_view(),
            },
            ProtocolMessage::GroupLeft => ProtocolMessageView::GroupLeft,
            ProtocolMessage::GroupQuit => ProtocolMessageView::GroupQuit,
            ProtocolMessage::UserInvited { username } => ProtocolMessageView::UserInvited {
                username: username@,
            },
            ProtocolMessage::MessageReceived { message, recent_messages } => ProtocolMessageView::MessageReceived {
                message: message.deep_view(),
                recent_messages: recent_messages.deep_view(),
            },
            ProtocolMessage::ReloadMessages { recent_messages } => ProtocolMessageView::ReloadMessages {
                recent_messages: recent_messages.deep_view(),
            },
            ProtocolMessage::GroupListResponse { groups } => ProtocolMessageView::GroupListResponse {
                groups: groups.deep_view(),
            },
            ProtocolMessage::UserListResponse { users } => ProtocolMessageView::UserListResponse {
                users: users.deep_view(),
            },
            ProtocolMessage::Error { message } => ProtocolMessageView::Error { message: message@ },
            ProtocolMessage::Okay { message } => ProtocolMessageView::Okay { message: message@ },
            ProtocolMessage::Success { message } => ProtocolMessageView::Success { message: message@ },
            ProtocolMessage::UserList { users } => ProtocolMessageView::UserList {
                users: users.deep_view(),
            },
            ProtocolMessage::MessageList { messages } => ProtocolMessageView::MessageList {
                messages: messages.deep_view(),
            },
            ProtocolMessage::StateChanged { in_group, group_name } => ProtocolMessageView::StateChanged {
                in_group,
                group_name: group_name.deep_view(),
            },
            ProtocolMessage::Ping => ProtocolMessageView::Ping,
            ProtocolMessage::Pong => ProtocolMessageView::Pong,
        }
    }
}

/// The result of encoding or decoding a message.
pub type ProtocolResult<T> = Result<T, ProtocolError>;

/// What can go wrong between a message and its line of text.
#[derive(Debug, Clone, PartialEq, Eq)]
pub enum ProtocolError {
    SerializationError(String),
    DeserializationError(String),
    NetworkError(String),
    InvalidMessage(String),
}

impl ProtocolError {
    /// The text of this error: what kind it is, then its detail.
    pub open spec fn text(&self) -> Seq<char> {
        match *self {
            ProtocolError::SerializationError(detail) => "Serialization error: "@ + detail@,
            ProtocolError::DeserializationError(detail) => "Deserialization error: "@ + detail@,
            ProtocolError::NetworkError(detail) => "Network error: "@ + detail@,
            ProtocolError::InvalidMessage(detail) => "Invalid message: "@ + detail@,
        }
    }

    /// Renders the error as text.
    pub fn to_string(&self) -> (rendered: String)
        ensures
            rendered@ == self.text(),
    {
        match self {
            ProtocolError::SerializationError(detail) => String::from_str(
                "Serialization error: ",
            ).concat(detail.as_str()),
            ProtocolError::DeserializationError(detail) => String::from_str(
                "Deserialization error: ",
            ).concat(detail.as_str()),
            ProtocolError::NetworkError(detail) => String::from_str("Network error: ").concat(
                detail.as_str(),
            ),
            ProtocolError::InvalidMessage(detail) => String::from_str("Invalid message: ").concat(
                detail.as_str(),
            ),
        }
    }
}

/// Frames the encoded text of one message for the wire: the text, then a
/// single line break.
pub fn to_wire_format(json: &str) -> (line: String)
    ensures
        line@ == json@.push('\n'),
{
    proof {
        reveal_strlit("\n");
    }
    String::from_str(json).concat("\n")
}

/// Takes the encoded text of one message out of a line from the wire: the
/// line without the whitespace and line breaks at its ends.
pub fn from_wire_format(data: &str) -> (json: &str)
    ensures
        json@ == trimmed(data@),
{
    trim(data)
}

} // verus!

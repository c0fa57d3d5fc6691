//! Fan-out: who receives a message that was posted to a group.

use crate::common::UserId;
use crate::protocol::{ProtocolMessage, ProtocolMessageView};
use crate::registry::{recipients_of, SessionRegistry, SessionView, SocketId};
use vstd::prelude::*;

verus! {

/// One payload and the connected users it is to be written to.
#[derive(Debug, PartialEq, Eq)]
pub struct Broadcast {
    pub recipients: Vec<(UserId, SocketId)>,
    pub payload: ProtocolMessage,
}

impl Broadcast {
    /// Whether this broadcast carries `payload` to exactly the sessions of
    /// `sessions` that view `group_id` and do not belong to `sender`, each
    /// once.
    pub open spec fn delivers(
        &self,
        sessions: Map<Seq<char>, SessionView>,
        group_id: Seq<char>,
        sender: Seq<char>,
        payload: ProtocolMessageView,
    ) -> bool {
        &&& self.payload.deep_view() == payload
        &&& self.recipients.deep_view().to_set() == recipients_of(sessions, group_id, Some(sender))
        &&& self.recipients.deep_view().no_duplicates()
    }
}

/// Prepares the delivery of `payload` to the group `group_id`: takes a
/// snapshot of the sessions that view the group and leaves out the session
/// of the sender, whichever socket it uses. The caller writes the payload to
/// each recipient's socket once the registry is released.
pub fn broadcast(
    registry: &SessionRegistry,
    group_id: &str,
    excluding_user_id: &str,
    payload: ProtocolMessage,
) -> (prepared: Broadcast)
    ensures
        prepared.delivers(registry@, group_id@, excluding_user_id@, payload.deep_view()),
        forall|socket: SocketId|
            !prepared.recipients.deep_view().contains((excluding_user_id@, socket)),
{
    let recipients = registry.recipients(group_id, Some(excluding_user_id));
    proof {
        assert forall|socket: SocketId|
            !recipients.deep_view().contains((excluding_user_id@, socket)) by {
            if recipients.deep_view().contains((excluding_user_id@, socket)) {
                assert(recipients.deep_view().to_set().contains((excluding_user_id@, socket)));
            }
        }
    }
    Broadcast { recipients, payload }
}

} // verus!

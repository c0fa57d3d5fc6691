//! The registry of live sessions: which authenticated users are connected,
//! over which socket, and which group each of them is viewing.

use crate::common::{GroupId, UserId};
use crate::text::str_eq;
use vstd::prelude::*;

verus! {

/// Handle of the connection a session writes to. The registry only stores
/// and returns it; whoever owns the sockets resolves it.
pub type SocketId = u64;

/// The live record of one authenticated connection.
#[derive(Debug, PartialEq, Eq)]
pub struct Session {
    pub user_id: UserId,
    pub socket: SocketId,
    pub current_group: Option<GroupId>,
}

/// What the registry records for one user.
pub struct SessionView {
    pub socket: SocketId,
    pub current_group: Option<Seq<char>>,
}

impl Session {
    /// The record of this session, without the user it belongs to.
    pub open spec fn record(&self) -> SessionView {
        SessionView { socket: self.socket, current_group: self.current_group.deep_view() }
    }
}

/// Why a registry operation did nothing.
#[derive(Debug, Clone, Copy, PartialEq, Eq, Structural)]
pub enum RegistryError {
    /// No session exists for the user.
    NotFound,
}

/// The pairs of user and socket of the sessions that are viewing `group_id`.
pub open spec fn members_of(sessions: Map<Seq<char>, SessionView>, group_id: Seq<char>) -> Set<
    (Seq<char>, SocketId),
> {
    Set::new(
        |member: (Seq<char>, SocketId)|
            sessions.dom().contains(member.0) && sessions[member.0].socket == member.1
                && sessions[member.0].current_group == Some(group_id),
    )
}

/// The members of `group_id` other than the user `excluding`, if one is
/// given.
pub open spec fn recipients_of(
    sessions: Map<Seq<char>, SessionView>,
    group_id: Seq<char>,
    excluding: Option<Seq<char>>,
) -> Set<(Seq<char>, SocketId)> {
    Set::new(
        |member: (Seq<char>, SocketId)|
            members_of(sessions, group_id).contains(member) && Some(member.0) != excluding,
    )
}

/// Whether some session of `sessions` belongs to `user_id`.
spec fn has_user(sessions: Seq<Session>, user_id: Seq<char>) -> bool {
    exists|i: int| 0 <= i < sessions.len() && (#[trigger] sessions[i]).user_id@ == user_id
}

/// The place of the session of `user_id` in `sessions`, when there is one.
spec fn place_of(sessions: Seq<Session>, user_id: Seq<char>) -> int {
    choose|i: int| 0 <= i < sessions.len() && (#[trigger] sessions[i]).user_id@ == user_id
}

/// No two sessions belong to the same user.
spec fn distinct_users(sessions: Seq<Session>) -> bool {
    forall|i: int, j: int|
        0 <= i < j < sessions.len() ==> (#[trigger] sessions[i]).user_id@ != (
        #[trigger] sessions[j]).user_id@
}

/// The mapping that a list of sessions with distinct users stands for.
spec fn as_map(sessions: Seq<Session>) -> Map<Seq<char>, SessionView> {
    Map::new(
        |user_id: Seq<char>| has_user(sessions, user_id),
        |user_id: Seq<char>| sessions[place_of(sessions, user_id)].record(),
    )
}

proof fn lemma_place(sessions: Seq<Session>, i: int)
    requires
        distinct_users(sessions),
        0 <= i < sessions.len(),
    ensures
        has_user(sessions, sessions[i].user_id@),
        place_of(sessions, sessions[i].user_id@) == i,
        as_map(sessions).dom().contains(sessions[i].user_id@),
        as_map(sessions)[sessions[i].user_id@] == sessions[i].record(),
{
}

/// The shared table of live sessions, at most one per user.
pub struct SessionRegistry {
    sessions: Vec<Session>,
}

impl View for SessionRegistry {
    type V = Map<Seq<char>, SessionView>;

    closed spec fn view(&self) -> Map<Seq<char>, SessionView> {
        as_map(self.sessions@)
    }
}

impl SessionRegistry {
    #[verifier::type_invariant]
    spec fn well_formed(&self) -> bool {
        distinct_users(self.sessions@)
    }

    /// An empty registry.
    pub fn new() -> (registry: SessionRegistry)
        ensures
            registry@ == Map::<Seq<char>, SessionView>::empty(),
    {
        let registry = SessionRegistry { sessions: Vec::new() };
        registry
    }

    /// Moves the sessions out, leaving the registry empty until they are
    /// put back.
    fn take_sessions(&mut self) -> (sessions: Vec<Session>)
        ensures
            sessions@ == old(self).sessions@,
            final(self).sessions@.len() == 0,
    {
        let mut sessions: Vec<Session> = Vec::new();
        core::mem::swap(&mut self.sessions, &mut sessions);
        sessions
    }

    /// The place of the session of `user_id`, if it has one.
    fn find(&self, user_id: &str) -> (place: Option<usize>)
        ensures
            match place {
                Some(i) => i < self.sessions.len() && self.sessions[i as int].user_id@ == user_id@,
                None => !has_user(self.sessions@, user_id@),
            },
    {
        let mut i: usize = 0;
        while i < self.sessions.len()
            invariant
                i <= self.sessions.len(),
                forall|j: int| 0 <= j < i ==> (#[trigger] self.sessions[j]).user_id@ != user_id@,
            decreases self.sessions.len() - i,
        {
            if str_eq(self.sessions[i].user_id.as_str(), user_id) {
                return Some(i);
            }
            i += 1;
        }
        None
    }

    /// The number of live sessions.
    pub fn len(&self) -> (count: usize)
        ensures
            count == self@.dom().len(),
            self@.dom().finite(),
    {
        proof {
            use_type_invariant(self);
            lemma_domain_size(self.sessions@);
        }
        self.sessions.len()
    }

    /// Whether `user_id` has a live session.
    pub fn contains(&self, user_id: &str) -> (present: bool)
        ensures
            present == self@.dom().contains(user_id@),
    {
        self.find(user_id).is_some()
    }

    /// What is recorded for `user_id`: its socket and the group it views.
    pub fn get(&self, user_id: &str) -> (session: Option<&Session>)
        ensures
            match session {
                Some(s) => self@.dom().contains(user_id@) && s.user_id@ == user_id@ && s.record()
                    == self@[user_id@],
                None => !self@.dom().contains(user_id@),
            },
    {
        match self.find(user_id) {
            Some(i) => {
                proof {
                    use_type_invariant(self);
                    lemma_place(self.sessions@, i as int);
                }
                Some(&self.sessions[i])
            },
            None => None,
        }
    }

    /// Installs the session of `user_id` on `socket`, in no group. A session
    /// that the user already had is replaced; its socket is not closed.
    pub fn upsert(&mut self, user_id: UserId, socket: SocketId)
        ensures
            final(self)@ == old(self)@.insert(
                user_id@,
                SessionView { socket, current_group: None },
            ),
    {
        proof {
            use_type_invariant(&*self);
        }
        let ghost before = self.sessions@;
        let fresh = Session { user_id, socket, current_group: None };
        let place = self.find(fresh.user_id.as_str());
        let mut sessions = self.take_sessions();
        match place {
            Some(i) => {
                sessions.set(i, fresh);
                proof {
                    lemma_replaced(before, i as int, fresh);
                }
            },
            None => {
                sessions.push(fresh);
                proof {
                    lemma_added(before, fresh);
                }
            },
        }
        self.sessions = sessions;
    }

    /// Sets or clears the group that the session of `user_id` is viewing.
    /// Without such a session nothing changes and `NotFound` is reported.
    pub fn set_group(&mut self, user_id: &str, group: Option<GroupId>) -> (result: Result<
        (),
        RegistryError,
    >)
        ensures
            result is Ok <==> old(self)@.dom().contains(user_id@),
            result is Ok ==> final(self)@ == old(self)@.insert(
                user_id@,
                SessionView {
                    socket: old(self)@[user_id@].socket,
                    current_group: group.deep_view(),
                },
            ),
            result is Err ==> final(self)@ == old(self)@ && result == Err::<(), RegistryError>(
                RegistryError::NotFound,
            ),
    {
        proof {
            use_type_invariant(&*self);
        }
        let ghost before = self.sessions@;
        match self.find(user_id) {
            Some(i) => {
                let socket = self.sessions[i].socket;
                let owner = self.sessions[i].user_id.clone();
                let updated = Session { user_id: owner, socket, current_group: group };
                let mut sessions = self.take_sessions();
                sessions.set(i, updated);
                proof {
                    lemma_place(before, i as int);
                    lemma_replaced(before, i as int, updated);
                }
                self.sessions = sessions;
                Ok(())
            },
            None => Err(RegistryError::NotFound),
        }
    }

    /// Deletes the session of `user_id`, if there is one.
    pub fn remove(&mut self, user_id: &str)
        ensures
            final(self)@ == old(self)@.remove(user_id@),
    {
        proof {
            use_type_invariant(&*self);
        }
        let ghost before = self.sessions@;
        match self.find(user_id) {
            Some(i) => {
                let mut sessions = self.take_sessions();
                sessions.remove(i);
                proof {
                    lemma_removed(before, i as int);
                }
                self.sessions = sessions;
            },
            None => {
            },
        }
    }

    /// The user and socket of every session that is viewing `group_id`, each
    /// once, as the registry holds them at this moment.
    pub fn snapshot_members_of(&self, group_id: &str) -> (members: Vec<(UserId, SocketId)>)
        ensures
            members.deep_view().to_set() == members_of(self@, group_id@),
            members.deep_view().no_duplicates(),
    {
        let members = self.recipients(group_id, None);
        members
    }

    /// The sessions viewing `group_id`, leaving out the one of `excluding`.
    pub fn recipients(&self, group_id: &str, excluding: Option<&str>) -> (members: Vec<
        (UserId, SocketId),
    >)
        ensures
            members.deep_view().to_set() == recipients_of(
                self@,
                group_id@,
                excluding.deep_view(),
            ),
            members.deep_view().no_duplicates(),
    {
        proof {
            use_type_invariant(self);
        }
        let ghost wanted = recipients_of(self@, group_id@, excluding.deep_view());
        let mut members: Vec<(UserId, SocketId)> = Vec::new();
        let mut i: usize = 0;
        while i < self.sessions.len()
            invariant
                i <= self.sessions.len(),
                distinct_users(self.sessions@),
                wanted == recipients_of(self@, group_id@, excluding.deep_view()),
                members.deep_view().no_duplicates(),
                forall|m: int|
                    0 <= m < members.len() ==> wanted.contains(#[trigger] members.deep_view()[m])
                        && exists|j: int|
                        0 <= j < i && (#[trigger] self.sessions[j]).user_id@
                            == members.deep_view()[m].0,
                forall|j: int|
                    0 <= j < i && wanted.contains(
                        ((#[trigger] self.sessions[j]).user_id@, self.sessions[j].socket),
                    ) ==> members.deep_view().contains(
                        (self.sessions[j].user_id@, self.sessions[j].socket),
                    ),
            decreases self.sessions.len() - i,
        {
            let session = &self.sessions[i];
            proof {
                lemma_place(self.sessions@, i as int);
            }
            let viewing = match &session.current_group {
                Some(group) => str_eq(group.as_str(), group_id),
                None => false,
            };
            let excluded = match excluding {
                Some(user_id) => str_eq(session.user_id.as_str(), user_id),
                None => false,
            };
            let ghost pair = (session.user_id@, session.socket);
            if viewing && !excluded {
                let ghost so_far = members.deep_view();
                members.push((session.user_id.clone(), session.socket));
                proof {
                    assert(members.deep_view() =~= so_far.push(pair));
                    assert forall|j: int|
                        0 <= j < i + 1 && wanted.contains(
                            ((#[trigger] self.sessions[j]).user_id@, self.sessions[j].socket),
                        ) implies members.deep_view().contains(
                        (self.sessions[j].user_id@, self.sessions[j].socket),
                    ) by {
                        let p = (self.sessions[j].user_id@, self.sessions[j].socket);
                        if j < i {
                            let m = choose|m: int| 0 <= m < so_far.len() && so_far[m] == p;
                            assert(members.deep_view()[m] == p);
                        } else {
                            assert(members.deep_view()[so_far.len() as int] == p);
                        }
                    }
                }
            }
            i += 1;
        }
        proof {
            let listed = members.deep_view();
            assert forall|member: (Seq<char>, SocketId)| wanted.contains(member) implies listed.contains(
                member,
            ) by {
                let j = place_of(self.sessions@, member.0);
                assert(self.sessions[j].user_id@ == member.0);
            }
        }
        members
    }
}

proof fn lemma_domain_size(sessions: Seq<Session>)
    requires
        distinct_users(sessions),
    ensures
        as_map(sessions).dom().finite(),
        as_map(sessions).dom().len() == sessions.len(),
    decreases sessions.len(),
{
    if sessions.len() == 0 {
        assert(as_map(sessions).dom() =~= Set::<Seq<char>>::empty());
    } else {
        let rest = sessions.drop_last();
        let last = sessions.last();
        lemma_domain_size(rest);
        lemma_added(rest, last);
        assert(rest.push(last) =~= sessions);
    }
}

proof fn lemma_added(sessions: Seq<Session>, fresh: Session)
    requires
        distinct_users(sessions),
        !has_user(sessions, fresh.user_id@),
    ensures
        distinct_users(sessions.push(fresh)),
        as_map(sessions.push(fresh)) == as_map(sessions).insert(fresh.user_id@, fresh.record()),
{
    let after = sessions.push(fresh);
    assert forall|k: Seq<char>| has_user(after, k) <==> (k == fresh.user_id@ || has_user(sessions, k)) by {
        if has_user(sessions, k) {
            let i = place_of(sessions, k);
            assert(after[i].user_id@ == k);
        }
        if k == fresh.user_id@ {
            assert(after[sessions.len() as int].user_id@ == k);
        }
    }
    assert forall|k: Seq<char>| has_user(after, k) implies #[trigger] as_map(after)[k] == as_map(
        sessions,
    ).insert(fresh.user_id@, fresh.record())[k] by {
        let i = place_of(after, k);
        lemma_place(after, i);
        if i < sessions.len() {
            lemma_place(sessions, i);
        }
    }
}

proof fn lemma_replaced(sessions: Seq<Session>, at: int, fresh: Session)
    requires
        distinct_users(sessions),
        0 <= at < sessions.len(),
        sessions[at].user_id@ == fresh.user_id@,
    ensures
        distinct_users(sessions.update(at, fresh)),
        as_map(sessions.update(at, fresh)) == as_map(sessions).insert(
            fresh.user_id@,
            fresh.record(),
        ),
{
    let after = sessions.update(at, fresh);
    assert forall|k: Seq<char>| has_user(after, k) <==> has_user(sessions, k) by {
        if has_user(sessions, k) {
            let i = place_of(sessions, k);
            assert(after[i].user_id@ == k);
        }
    }
    assert forall|k: Seq<char>| has_user(after, k) implies #[trigger] as_map(after)[k] == as_map(
        sessions,
    ).insert(fresh.user_id@, fresh.record())[k] by {
        let i = place_of(after, k);
        lemma_place(after, i);
        lemma_place(sessions, i);
    }
}

proof fn lemma_removed(sessions: Seq<Session>, at: int)
    requires
        distinct_users(sessions),
        0 <= at < sessions.len(),
    ensures
        distinct_users(sessions.remove(at)),
        as_map(sessions.remove(at)) == as_map(sessions).remove(sessions[at].user_id@),
{
    let after = sessions.remove(at);
    let gone = sessions[at].user_id@;
    assert forall|k: Seq<char>| has_user(after, k) <==> (k != gone && has_user(sessions, k)) by {
        if k != gone && has_user(sessions, k) {
            let a = place_of(sessions, k);
            let i = if a < at { a } else { a - 1 };
            assert(after[i].user_id@ == k);
        }
    }
    assert forall|k: Seq<char>| has_user(after, k) implies #[trigger] as_map(after)[k] == as_map(
        sessions,
    ).remove(gone)[k] by {
        let i = place_of(after, k);
        let a = if i < at { i } else { i + 1 };
        lemma_place(after, i);
        lemma_place(sessions, a);
    }
}

/// No snapshot of `group_id` names `user_id`.
pub open spec fn outside_of(
    sessions: Map<Seq<char>, SessionView>,
    user_id: Seq<char>,
    group_id: Seq<char>,
) -> bool {
    forall|socket: SocketId| !members_of(sessions, group_id).contains((user_id, socket))
}

/// Once the group of a user's session is cleared, as it is when the user
/// leaves a group or goes home, the snapshot of no group names that user.
pub proof fn lemma_cleared_session_is_outside_every_group(
    sessions: Map<Seq<char>, SessionView>,
    user_id: Seq<char>,
    socket: SocketId,
    group_id: Seq<char>,
)
    ensures
        outside_of(
            sessions.insert(user_id, SessionView { socket, current_group: None }),
            user_id,
            group_id,
        ),
{
}

/// A user who has no session is named by no snapshot.
pub proof fn lemma_removed_session_is_outside_every_group(
    sessions: Map<Seq<char>, SessionView>,
    user_id: Seq<char>,
    group_id: Seq<char>,
)
    ensures
        outside_of(sessions.remove(user_id), user_id, group_id),
{
}

/// A user whom the snapshots of a group do not name stays unnamed under
/// every change of the registry, except one that puts that user's own
/// session into that group again.
pub proof fn lemma_outside_until_rejoin(
    sessions: Map<Seq<char>, SessionView>,
    user_id: Seq<char>,
    group_id: Seq<char>,
    changed: Seq<char>,
    record: SessionView,
)
    requires
        outside_of(sessions, user_id, group_id),
        changed == user_id ==> record.current_group != Some(group_id),
    ensures
        outside_of(sessions.insert(changed, record), user_id, group_id),
        outside_of(sessions.remove(changed), user_id, group_id),
{
    assert forall|socket: SocketId|
        !members_of(sessions.insert(changed, record), group_id).contains((user_id, socket)) by {
        assert(!members_of(sessions, group_id).contains((user_id, socket)));
    }
    assert forall|socket: SocketId|
        !members_of(sessions.remove(changed), group_id).contains((user_id, socket)) by {
        assert(!members_of(sessions, group_id).contains((user_id, socket)));
    }
}

} // verus!

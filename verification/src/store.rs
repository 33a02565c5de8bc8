//! The store of all chat sessions of a running process: an ordered sequence
//! of sessions with unique, never-reused ids, plus the completion client
//! shared by every session's submit path.

use vstd::prelude::*;

use crate::messages::ChatCompletionRequestMessage;
use crate::messages::ChatMessageTrait;
use crate::messages::Role;
use crate::session::ChatSession;
use crate::session::ChatSessionView;
use crate::session::CompletionClient;
use crate::session::CompletionError;

verus! {

/// There is a session carrying `id` somewhere in `s`.
pub open spec fn contains_session(s: Seq<ChatSessionView>, id: nat) -> bool {
    exists|i: int| 0 <= i < s.len() && (#[trigger] s[i]).id == id
}

/// The position of the session carrying `id`; meaningful when
/// `contains_session` holds (and ids are unique, as `StoreView::wf` gives).
pub open spec fn session_index(s: Seq<ChatSessionView>, id: nat) -> int {
    choose|i: int| 0 <= i < s.len() && (#[trigger] s[i]).id == id
}

/// Mathematical image of a store.
pub struct StoreView {
    pub sessions: Seq<ChatSessionView>,
    pub session_id_counter: nat,
}

impl StoreView {
    /// Every stored session id was drawn from the counter, so it lies below
    /// it, ids grow along the sequence — hence no two sessions share an id,
    /// and a deleted id is never handed out again — and every stored session
    /// is itself well formed.
    pub open spec fn wf(self) -> bool {
        &&& forall|i: int|
            0 <= i < self.sessions.len() ==> (#[trigger] self.sessions[i]).id
                < self.session_id_counter
        &&& forall|i: int, j: int|
            0 <= i < j < self.sessions.len() ==> (#[trigger] self.sessions[i]).id < (
            #[trigger] self.sessions[j]).id
        &&& forall|i: int| 0 <= i < self.sessions.len() ==> (#[trigger] self.sessions[i]).wf()
    }
}

/// Ids assigned to sessions strictly increase and are never reused: in a
/// well-formed store every stored session id lies strictly below the id the
/// next created session will receive, and no two sessions share an id.
pub proof fn lemma_session_ids_unique(s: StoreView)
    requires
        s.wf(),
    ensures
        forall|i: int|
            0 <= i < s.sessions.len() ==> (#[trigger] s.sessions[i]).id < s.session_id_counter,
        forall|i: int, j: int|
            0 <= i < s.sessions.len() && 0 <= j < s.sessions.len() && i != j ==> (
            #[trigger] s.sessions[i]).id != (#[trigger] s.sessions[j]).id,
{
    assert forall|i: int, j: int|
        0 <= i < s.sessions.len() && 0 <= j < s.sessions.len() && i != j implies (
    #[trigger] s.sessions[i]).id != (#[trigger] s.sessions[j]).id by {
        if i < j {
            assert(s.sessions[i].id < s.sessions[j].id);
        } else {
            assert(s.sessions[j].id < s.sessions[i].id);
        }
    }
}

/// Deleting a session id works exactly once: removing the session that
/// carries `id` shortens the sequence by one, and afterwards no session
/// carries `id` any more, so a second deletion of the same id (or a lookup
/// of it) finds nothing.
pub proof fn lemma_delete_session_once(s: StoreView, id: nat)
    requires
        s.wf(),
        contains_session(s.sessions, id),
    ensures
        s.sessions.remove(session_index(s.sessions, id)).len() == s.sessions.len() - 1,
        !contains_session(s.sessions.remove(session_index(s.sessions, id)), id),
{
    let m = s.sessions;
    let i = session_index(m, id);
    assert(0 <= i < m.len() && m[i].id == id);
    m.remove_ensures(i);
    let rem = m.remove(i);
    assert forall|k: int| 0 <= k < rem.len() implies (#[trigger] rem[k]).id != id by {
        let k0: int = if k < i {
            k
        } else {
            k + 1
        };
        assert(rem[k] == m[k0]);
        if k0 < i {
            assert(m[k0].id < m[i].id);
        } else {
            assert(m[i].id < m[k0].id);
        }
    }
}

/// The container of all chat sessions, mediating every mutation that needs
/// a completion round trip through its client.
pub struct Store<C: CompletionClient> {
    /// The sessions of this store, in creation order.
    sessions: Vec<ChatSession>,
    /// Counter for the ids of this store's sessions; ids are unique for each
    /// session in this store.
    session_id_counter: usize,
    /// The completion client shared by all sessions' submit operations.
    client: C,
}

impl<C: CompletionClient> View for Store<C> {
    type V = StoreView;

    closed spec fn view(&self) -> StoreView {
        StoreView {
            sessions: self.sessions@.map_values(|s: ChatSession| s@),
            session_id_counter: self.session_id_counter as nat,
        }
    }
}

/// The position of the first session in `v` whose id is `id`, if any.
fn find_session_index(v: &Vec<ChatSession>, id: usize) -> (r: Option<usize>)
    ensures
        match r {
            Some(i) => 0 <= i < v@.len() && (#[trigger] v@[i as int])@.id == id,
            None => forall|k: int| 0 <= k < v@.len() ==> (#[trigger] v@[k])@.id != id,
        },
{
    let mut i: usize = 0;
    while i < v.len()
        invariant
            i <= v@.len(),
            forall|k: int| 0 <= k < i ==> (#[trigger] v@[k])@.id != id,
        decreases v@.len() - i,
    {
        if v[i].get_id() == id {
            return Some(i);
        }
        i = i + 1;
    }
    None
}

impl<C: CompletionClient> Store<C> {
    /// Create a new store with no sessions. Ownership of the completion
    /// client moves to the store.
    pub fn new(client: C) -> (r: Store<C>)
        ensures
            r@.sessions =~= Seq::<ChatSessionView>::empty(),
            r@.session_id_counter == 0,
            r@.wf(),
    {
        Store { sessions: Vec::new(), session_id_counter: 0, client }
    }

    /// Returns a reference to the collection of sessions in this store.
    pub fn get_all_sessions(&self) -> (r: &Vec<ChatSession>)
        ensures
            r@.len() == self@.sessions.len(),
            forall|i: int| 0 <= i < r@.len() ==> (#[trigger] r@[i])@ == self@.sessions[i],
    {
        &self.sessions
    }

    /// Returns a copy of the current value of the session id counter: the id
    /// the next created session will receive.
    pub fn get_session_id_counter(&self) -> (r: usize)
        ensures
            r == self@.session_id_counter,
    {
        self.session_id_counter
    }

    /// Finds and returns a reference to the chat session with matching id,
    /// if any exists.
    pub fn get_session(&self, id: usize) -> (r: Option<&ChatSession>)
        requires
            self@.wf(),
        ensures
            contains_session(self@.sessions, id as nat) ==> (r matches Some(s) && s@
                == self@.sessions[session_index(self@.sessions, id as nat)]),
            !contains_session(self@.sessions, id as nat) ==> r is None,
    {
        let found = find_session_index(&self.sessions, id);
        match found {
            Some(i) => {
                proof {
                    let s = self@.sessions;
                    assert(s[i as int].id == id);
                    assert(contains_session(s, id as nat));
                    let j = session_index(s, id as nat);
                    assert(0 <= j < s.len() && s[j].id == id);
                    assert(j == i) by {
                        if j < i {
                            assert(s[j].id < s[i as int].id);
                        }
                        if i < j {
                            assert(s[i as int].id < s[j].id);
                        }
                    }
                }
                Some(&self.sessions[i])
            },
            None => {
                proof {
                    let s = self@.sessions;
                    assert forall|k: int| 0 <= k < s.len() implies (#[trigger] s[k]).id != id by {
                        assert((self.sessions@[k])@.id != id);
                    }
                    assert(!contains_session(s, id as nat));
                }
                None
            },
        }
    }

    /// Creates a new chat session titled `title` and bound to `model`,
    /// immediately submitting the content of `msg` as its first user turn.
    /// On success the session — holding that user turn and the model's reply
    /// — is registered, the id counter advances, and the new session's id is
    /// returned. On failure the error propagates unchanged and the store
    /// keeps no trace of the session.
    pub fn add_session(
        &mut self,
        msg: ChatCompletionRequestMessage,
        title: String,
        model: &str,
    ) -> (r: Result<usize, CompletionError>)
        requires
            old(self)@.wf(),
            old(self)@.session_id_counter < usize::MAX,
        ensures
            final(self)@.wf(),
            r is Err ==> final(self)@ == old(self)@,
            r matches Ok(i) ==> i == old(self)@.session_id_counter,
            r is Ok ==> {
                &&& final(self)@.session_id_counter == old(self)@.session_id_counter + 1
                &&& final(self)@.sessions.len() == old(self)@.sessions.len() + 1
                &&& final(self)@.sessions.drop_last() == old(self)@.sessions
                &&& final(self)@.sessions.last().id == old(self)@.session_id_counter
                &&& final(self)@.sessions.last().title == title@
                &&& final(self)@.sessions.last().model == model@
                &&& final(self)@.sessions.last().msg_id_counter == 2
                &&& final(self)@.sessions.last().messages.len() == 2
                &&& final(self)@.sessions.last().messages[0].id == 0
                &&& final(self)@.sessions.last().messages[0].role == Role::User
                &&& final(self)@.sessions.last().messages[0].content == msg.spec_content()
                &&& final(self)@.sessions.last().messages[1].id == 1
            },
    {
        let id = self.session_id_counter;
        let mut chs = ChatSession::new(id, title, model);
        let contents = msg.get_content();
        match chs.add_message(contents, &self.client) {
            Err(e) => Err(e),
            Ok(_) => {
                self.session_id_counter = self.session_id_counter + 1;
                self.sessions.push(chs);
                proof {
                    let prev = old(self)@.sessions;
                    assert(self@.sessions.drop_last() =~= prev);
                    assert(self@.sessions.last() == chs@);
                    assert forall|p: int, q: int|
                        0 <= p < q < self@.sessions.len() implies (
                    #[trigger] self@.sessions[p]).id < (#[trigger] self@.sessions[q]).id by {
                        if q < self@.sessions.len() - 1 {
                            assert(prev[p].id < prev[q].id);
                        } else {
                            assert(prev[p].id < old(self)@.session_id_counter);
                        }
                    }
                    assert forall|p: int| 0 <= p < self@.sessions.len() implies (
                    #[trigger] self@.sessions[p]).id < self@.session_id_counter by {
                        if p < self@.sessions.len() - 1 {
                            assert(prev[p].id < old(self)@.session_id_counter);
                        }
                    }
                    assert forall|p: int| 0 <= p < self@.sessions.len() implies (
                    #[trigger] self@.sessions[p]).wf() by {
                        if p < self@.sessions.len() - 1 {
                            assert(prev[p].wf());
                        }
                    }
                }
                Ok(id)
            },
        }
    }

    /// Deletes the chat session with matching id in this store, preserving
    /// the order of all other sessions; the deleted session is returned if
    /// one matched, and nothing changes otherwise. Since ids are unique, a
    /// second deletion of the same id returns nothing.
    pub fn delete_session(&mut self, id: usize) -> (r: Option<ChatSession>)
        requires
            old(self)@.wf(),
        ensures
            final(self)@.wf(),
            final(self)@.session_id_counter == old(self)@.session_id_counter,
            contains_session(old(self)@.sessions, id as nat) ==> {
                &&& r matches Some(s)
                &&& s@ == old(self)@.sessions[session_index(old(self)@.sessions, id as nat)]
                &&& final(self)@.sessions == old(self)@.sessions.remove(
                    session_index(old(self)@.sessions, id as nat),
                )
            },
            !contains_session(old(self)@.sessions, id as nat) ==> r is None && final(self)@.sessions
                == old(self)@.sessions,
    {
        let found = find_session_index(&self.sessions, id);
        match found {
            Some(i) => {
                proof {
                    let s = old(self)@.sessions;
                    assert(s[i as int].id == id);
                    assert(contains_session(s, id as nat));
                    let j = session_index(s, id as nat);
                    assert(0 <= j < s.len() && s[j].id == id);
                    assert(j == i) by {
                        if j < i {
                            assert(s[j].id < s[i as int].id);
                        }
                        if i < j {
                            assert(s[i as int].id < s[j].id);
                        }
                    }
                }
                let chs = self.sessions.remove(i);
                proof {
                    let s = old(self)@.sessions;
                    s.remove_ensures(i as int);
                    old(self).sessions@.remove_ensures(i as int);
                    assert(self@.sessions =~= s.remove(i as int));
                    assert forall|p: int, q: int|
                        0 <= p < q < self@.sessions.len() implies (
                    #[trigger] self@.sessions[p]).id < (#[trigger] self@.sessions[q]).id by {
                        let p0: int = if p < i { p } else { p + 1 };
                        let q0: int = if q < i { q } else { q + 1 };
                        assert(s[p0].id < s[q0].id);
                    }
                    assert forall|p: int| 0 <= p < self@.sessions.len() implies (
                    #[trigger] self@.sessions[p]).wf() by {
                        let p0: int = if p < i { p } else { p + 1 };
                        assert(s[p0].wf());
                    }
                }
                Some(chs)
            },
            None => {
                proof {
                    let s = old(self)@.sessions;
                    assert forall|k: int| 0 <= k < s.len() implies (#[trigger] s[k]).id != id by {
                        assert((self.sessions@[k])@.id != id);
                    }
                    assert(!contains_session(s, id as nat));
                }
                None
            },
        }
    }
}

} // verus!

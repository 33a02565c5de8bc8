//! One chat session: an ordered sequence of messages with unique,
//! never-reused ids, a title, and the completion model it is bound to.

use vstd::prelude::*;

use crate::messages::ChatCompletionRequestMessage;
use crate::messages::ChatCompletionResponseMessage;
use crate::messages::ChatMessageTrait;
use crate::messages::Message;
use crate::messages::MessageView;
use crate::messages::Role;

verus! {

/// Why a submitted turn failed: the completion endpoint reported an error,
/// or its reply carried no usable choice.
#[derive(Debug)]
pub enum CompletionError {
    /// The endpoint reported a failure (network, authentication, rate limit,
    /// malformed request); the text is the client's description of it.
    Client(String),
    /// The endpoint answered, but with an empty list of choices.
    EmptyResponse,
}

/// The external completion capability: given the full outgoing turn list and
/// a model name, it answers with the endpoint's choices or with an error.
/// Nothing is promised of the outcome; callers state what holds either way.
pub trait CompletionClient {
    /// Ask the completion endpoint for a reply to `messages` using `model`.
    fn complete(&self, messages: Vec<ChatCompletionRequestMessage>, model: &str) -> Result<
        Vec<ChatCompletionResponseMessage>,
        CompletionError,
    >;
}

/// Mathematical image of a session.
pub struct ChatSessionView {
    pub id: nat,
    pub title: Seq<char>,
    pub model: Seq<char>,
    pub messages: Seq<MessageView>,
    pub msg_id_counter: nat,
}

impl ChatSessionView {
    /// Every stored id was drawn from the counter, so it lies below it, and
    /// ids grow along the sequence; hence no two messages share an id, and a
    /// deleted id is never handed out again.
    pub open spec fn wf(self) -> bool {
        &&& forall|i: int|
            0 <= i < self.messages.len() ==> (#[trigger] self.messages[i]).id
                < self.msg_id_counter
        &&& forall|i: int, j: int|
            0 <= i < j < self.messages.len() ==> (#[trigger] self.messages[i]).id < (
            #[trigger] self.messages[j]).id
    }
}

/// There is a message carrying `id` somewhere in `s`.
pub open spec fn contains_msg(s: Seq<MessageView>, id: nat) -> bool {
    exists|i: int| 0 <= i < s.len() && (#[trigger] s[i]).id == id
}

/// The position of the message carrying `id`; meaningful when `contains_msg`
/// holds (and ids are unique, as `ChatSessionView::wf` gives).
pub open spec fn msg_index(s: Seq<MessageView>, id: nat) -> int {
    choose|i: int| 0 <= i < s.len() && (#[trigger] s[i]).id == id
}

/// The position of the first message in `v` whose id is `id`, if any.
fn find_message_index(v: &Vec<Message>, id: usize) -> (r: Option<usize>)
    ensures
        match r {
            Some(i) => 0 <= i < v@.len() && (#[trigger] v@[i as int])@.id == id,
            None => forall|k: int| 0 <= k < v@.len() ==> (#[trigger] v@[k])@.id != id,
        },
{
    let mut i: usize = 0;
    while i < v.len()
        invariant
            i <= v@.len(),
            forall|k: int| 0 <= k < i ==> (#[trigger] v@[k])@.id != id,
        decreases v@.len() - i,
    {
        if v[i].get_id() == id {
            return Some(i);
        }
        i = i + 1;
    }
    None
}

/// Ids assigned to messages strictly increase and are never reused: in a
/// well-formed session every stored id lies strictly below the id the next
/// append will hand out — deletion never frees an id, since the counter
/// never moves back — and no two stored messages share an id.
pub proof fn lemma_message_ids_unique(s: ChatSessionView)
    requires
        s.wf(),
    ensures
        forall|i: int|
            0 <= i < s.messages.len() ==> (#[trigger] s.messages[i]).id < s.msg_id_counter,
        forall|i: int, j: int|
            0 <= i < s.messages.len() && 0 <= j < s.messages.len() && i != j ==> (
            #[trigger] s.messages[i]).id != (#[trigger] s.messages[j]).id,
{
    assert forall|i: int, j: int|
        0 <= i < s.messages.len() && 0 <= j < s.messages.len() && i != j implies (
    #[trigger] s.messages[i]).id != (#[trigger] s.messages[j]).id by {
        if i < j {
            assert(s.messages[i].id < s.messages[j].id);
        } else {
            assert(s.messages[j].id < s.messages[i].id);
        }
    }
}

/// Deleting a message id works exactly once: removing the message that
/// carries `id` shortens the sequence by one, and afterwards no message
/// carries `id` any more, so a second deletion of the same id finds nothing
/// and leaves the sequence unchanged.
pub proof fn lemma_delete_message_once(s: ChatSessionView, id: nat)
    requires
        s.wf(),
        contains_msg(s.messages, id),
    ensures
        s.messages.remove(msg_index(s.messages, id)).len() == s.messages.len() - 1,
        !contains_msg(s.messages.remove(msg_index(s.messages, id)), id),
{
    let m = s.messages;
    let i = msg_index(m, id);
    assert(0 <= i < m.len() && m[i].id == id);
    m.remove_ensures(i);
    let rem = m.remove(i);
    assert forall|k: int| 0 <= k < rem.len() implies (#[trigger] rem[k]).id != id by {
        let k0: int = if k < i {
            k
        } else {
            k + 1
        };
        assert(rem[k] == m[k0]);
        if k0 < i {
            assert(m[k0].id < m[i].id);
        } else {
            assert(m[i].id < m[k0].id);
        }
    }
}

/// One individual chat session.
#[derive(Debug)]
pub struct ChatSession {
    /// A unique id number for this chat session.
    id: usize,
    /// The title of this session.
    title: String,
    /// The messages in this session, in conversation order.
    messages: Vec<Message>,
    /// Counter for the ids of this session's messages; ids are unique for
    /// each message in this session.
    msg_id_counter: usize,
    /// The chat model used by this session.
    model: String,
}

impl View for ChatSession {
    type V = ChatSessionView;

    closed spec fn view(&self) -> ChatSessionView {
        ChatSessionView {
            id: self.id as nat,
            title: self.title@,
            model: self.model@,
            messages: self.messages@.map_values(|m: Message| m@),
            msg_id_counter: self.msg_id_counter as nat,
        }
    }
}

impl ChatSession {
    /// Create a new chat session with the supplied id, title and model,
    /// holding no messages yet.
    pub fn new(id: usize, title: String, model: &str) -> (s: ChatSession)
        ensures
            s@.id == id,
            s@.title == title@,
            s@.model == model@,
            s@.messages =~= Seq::<MessageView>::empty(),
            s@.msg_id_counter == 0,
            s@.wf(),
    {
        ChatSession {
            id,
            title,
            messages: Vec::new(),
            msg_id_counter: 0,
            model: model.to_owned(),
        }
    }

    /// Renames this session to the `new_title` provided.
    pub fn rename_session(&mut self, new_title: String)
        ensures
            final(self)@.title == new_title@,
            final(self)@.id == old(self)@.id,
            final(self)@.model == old(self)@.model,
            final(self)@.messages == old(self)@.messages,
            final(self)@.msg_id_counter == old(self)@.msg_id_counter,
            old(self)@.wf() ==> final(self)@.wf(),
    {
        self.title = new_title;
    }

    /// Returns a copy of the title of this session.
    pub fn get_title(&self) -> (r: String)
        ensures
            r@ == self@.title,
    {
        self.title.clone()
    }

    /// Returns a copy of the id of this session.
    pub fn get_id(&self) -> (r: usize)
        ensures
            r == self@.id,
    {
        self.id
    }

    /// Returns a copy of the model name this session is bound to.
    pub fn get_model(&self) -> (r: String)
        ensures
            r@ == self@.model,
    {
        self.model.clone()
    }

    /// Returns a copy of the current value of the message id counter: the id
    /// the next appended message will receive.
    pub fn get_msg_id_counter(&self) -> (r: usize)
        ensures
            r == self@.msg_id_counter,
    {
        self.msg_id_counter
    }

    /// Adds a new chat message to this session, consuming it in the process.
    ///
    /// The message may be either wire shape, or anything else that carries a
    /// role and a content. It receives the next id from this session's
    /// counter — which is returned — and the current wall-clock second, and
    /// goes to the end of the sequence.
    pub fn add_chat_message<T: ChatMessageTrait>(&mut self, msg: T) -> (r: usize)
        requires
            old(self)@.wf(),
            old(self)@.msg_id_counter < usize::MAX,
        ensures
            final(self)@.wf(),
            final(self)@.id == old(self)@.id,
            final(self)@.title == old(self)@.title,
            final(self)@.model == old(self)@.model,
            final(self)@.msg_id_counter == old(self)@.msg_id_counter + 1,
            final(self)@.messages.len() == old(self)@.messages.len() + 1,
            final(self)@.messages.drop_last() == old(self)@.messages,
            final(self)@.messages.last().id == old(self)@.msg_id_counter,
            final(self)@.messages.last().role == msg.spec_role(),
            final(self)@.messages.last().content == msg.spec_content(),
            r == old(self)@.msg_id_counter,
    {
        let id = self.msg_id_counter;
        self.msg_id_counter = self.msg_id_counter + 1;
        let role = msg.get_role();
        let content = msg.get_content();
        let record = Message::new(id, role, content);
        self.messages.push(record);
        proof {
            let prev = old(self)@.messages;
            assert(self@.messages.drop_last() =~= prev);
            assert forall|i: int, j: int|
                0 <= i < j < self@.messages.len() implies (#[trigger] self@.messages[i]).id < (
            #[trigger] self@.messages[j]).id by {
                if j < self@.messages.len() - 1 {
                    assert(prev[i].id < prev[j].id);
                } else {
                    assert(prev[i].id < old(self)@.msg_id_counter);
                }
            }
        }
        id
    }

    /// Deletes the message with matching id in this chat session, preserving
    /// the order of all other messages; the deleted message is returned if
    /// one matched, and nothing changes otherwise. Since ids are unique, a
    /// second deletion of the same id returns nothing.
    pub fn delete_message(&mut self, id: usize) -> (r: Option<Message>)
        requires
            old(self)@.wf(),
        ensures
            final(self)@.wf(),
            final(self)@.id == old(self)@.id,
            final(self)@.title == old(self)@.title,
            final(self)@.model == old(self)@.model,
            final(self)@.msg_id_counter == old(self)@.msg_id_counter,
            contains_msg(old(self)@.messages, id as nat) ==> {
                &&& r matches Some(m)
                &&& m@ == old(self)@.messages[msg_index(old(self)@.messages, id as nat)]
                &&& final(self)@.messages == old(self)@.messages.remove(
                    msg_index(old(self)@.messages, id as nat),
                )
            },
            !contains_msg(old(self)@.messages, id as nat) ==> r is None && final(self)@.messages
                == old(self)@.messages,
    {
        let found = find_message_index(&self.messages, id);
        match found {
            Some(i) => {
                proof {
                    let s = old(self)@.messages;
                    assert(s[i as int].id == id);
                    assert(contains_msg(s, id as nat));
                    let j = msg_index(s, id as nat);
                    assert(0 <= j < s.len() && s[j].id == id);
                    assert(j == i) by {
                        if j < i {
                            assert(s[j].id < s[i as int].id);
                        }
                        if i < j {
                            assert(s[i as int].id < s[j].id);
                        }
                    }
                }
                let m = self.messages.remove(i);
                proof {
                    let s = old(self)@.messages;
                    s.remove_ensures(i as int);
                    old(self).messages@.remove_ensures(i as int);
                    assert(self@.messages =~= s.remove(i as int));
                    assert forall|p: int, q: int|
                        0 <= p < q < self@.messages.len() implies (
                    #[trigger] self@.messages[p]).id < (#[trigger] self@.messages[q]).id by {
                        let p0: int = if p < i { p } else { p + 1 };
                        let q0: int = if q < i { q } else { q + 1 };
                        assert(s[p0].id < s[q0].id);
                    }
                }
                Some(m)
            },
            None => {
                proof {
                    let s = old(self)@.messages;
                    assert forall|k: int| 0 <= k < s.len() implies (#[trigger] s[k]).id != id by {
                        assert((self.messages@[k])@.id != id);
                    }
                    assert(!contains_msg(s, id as nat));
                }
                None
            },
        }
    }

    /// Projects every stored message, plus the pending user content as a
    /// final not-yet-stored user turn, into the outgoing wire shape,
    /// preserving conversation order. The pending turn always comes last, so
    /// the model sees the latest user input in context.
    pub fn build_request_payload(&self, pending_content: &String) -> (v: Vec<
        ChatCompletionRequestMessage,
    >)
        ensures
            v@.len() == self@.messages.len() + 1,
            forall|i: int|
                0 <= i < self@.messages.len() ==> {
                    &&& (#[trigger] v@[i]).role == self@.messages[i].role
                    &&& v@[i].content matches Some(c) && c@ == self@.messages[i].content
                    &&& v@[i].name is None
                    &&& v@[i].function_call is None
                },
            v@.last().role == Role::User,
            v@.last().content matches Some(c) && c@ == pending_content@,
            v@.last().name is None,
            v@.last().function_call is None,
    {
        let mut v: Vec<ChatCompletionRequestMessage> = Vec::new();
        let mut i: usize = 0;
        while i < self.messages.len()
            invariant
                i <= self.messages@.len(),
                self.messages@.len() == self@.messages.len(),
                v@.len() == i,
                forall|k: int|
                    0 <= k < i ==> {
                        &&& (#[trigger] v@[k]).role == self@.messages[k].role
                        &&& v@[k].content matches Some(c) && c@ == self@.messages[k].content
                        &&& v@[k].name is None
                        &&& v@[k].function_call is None
                    },
            decreases self.messages@.len() - i,
        {
            v.push(self.messages[i].to_chat_resquest_msg());
            i = i + 1;
        }
        v.push(
            ChatCompletionRequestMessage {
                role: Role::User,
                content: Some(pending_content.clone()),
                name: None,
                function_call: None,
            },
        );
        v
    }

    /// Commits the outcome of one completion round trip for the pending user
    /// turn `contents`: on a reply with at least one choice, appends the user
    /// turn and then the first choice, each through the append path with a
    /// fresh id; on an error, or on a reply with no choice at all, fails and
    /// leaves the session exactly as it was.
    pub fn apply_completion(
        &mut self,
        contents: String,
        outcome: Result<Vec<ChatCompletionResponseMessage>, CompletionError>,
    ) -> (r: Result<(), CompletionError>)
        requires
            old(self)@.wf(),
            old(self)@.msg_id_counter + 1 < usize::MAX,
        ensures
            final(self)@.wf(),
            final(self)@.id == old(self)@.id,
            final(self)@.title == old(self)@.title,
            final(self)@.model == old(self)@.model,
            r is Ok <==> (outcome matches Ok(cs) && cs@.len() > 0),
            r is Err ==> final(self)@ == old(self)@,
            outcome matches Err(e) ==> r == Result::<(), CompletionError>::Err(e),
            (outcome matches Ok(cs) && cs@.len() == 0) ==> (r matches Err(e) && e
                is EmptyResponse),
            r is Ok ==> {
                &&& final(self)@.msg_id_counter == old(self)@.msg_id_counter + 2
                &&& final(self)@.messages.len() == old(self)@.messages.len() + 2
                &&& final(self)@.messages.subrange(0, old(self)@.messages.len() as int) == old(
                    self,
                )@.messages
                &&& final(self)@.messages[old(self)@.messages.len() as int].id == old(
                    self,
                )@.msg_id_counter
                &&& final(self)@.messages[old(self)@.messages.len() as int].role == Role::User
                &&& final(self)@.messages[old(self)@.messages.len() as int].content == contents@
                &&& final(self)@.messages.last().id == old(self)@.msg_id_counter + 1
                &&& outcome matches Ok(cs) ==> final(self)@.messages.last().role
                    == cs@[0].spec_role() && final(self)@.messages.last().content
                    == cs@[0].spec_content()
            },
    {
        match outcome {
            Err(e) => Err(e),
            Ok(mut choices) => {
                if choices.len() == 0 {
                    Err(CompletionError::EmptyResponse)
                } else {
                    let reply = choices.remove(0);
                    let user_msg = ChatCompletionRequestMessage {
                        role: Role::User,
                        content: Some(contents),
                        name: None,
                        function_call: None,
                    };
                    self.add_chat_message(user_msg);
                    self.add_chat_message(reply);
                    proof {
                        let prev = old(self)@.messages;
                        assert(self@.messages.drop_last().drop_last() =~= prev);
                        assert(self@.messages.subrange(0, prev.len() as int) =~= prev);
                        assert(self@.messages[prev.len() as int]
                            == self@.messages.drop_last().last());
                    }
                    Ok(())
                }
            },
        }
    }

    /// Processes one user turn: sends every stored message plus the new
    /// `contents` to the completion client, and on success appends the user
    /// turn and then the returned reply, in that order, each with a fresh
    /// id. On failure nothing is appended and the message sequence is left
    /// exactly as it was before the call.
    pub fn add_message<C: CompletionClient>(&mut self, contents: String, client: &C) -> (r: Result<
        (),
        CompletionError,
    >)
        requires
            old(self)@.wf(),
            old(self)@.msg_id_counter + 1 < usize::MAX,
        ensures
            final(self)@.wf(),
            final(self)@.id == old(self)@.id,
            final(self)@.title == old(self)@.title,
            final(self)@.model == old(self)@.model,
            r is Err ==> final(self)@ == old(self)@,
            r is Ok ==> {
                &&& final(self)@.msg_id_counter == old(self)@.msg_id_counter + 2
                &&& final(self)@.messages.len() == old(self)@.messages.len() + 2
                &&& final(self)@.messages.subrange(0, old(self)@.messages.len() as int) == old(
                    self,
                )@.messages
                &&& final(self)@.messages[old(self)@.messages.len() as int].id == old(
                    self,
                )@.msg_id_counter
                &&& final(self)@.messages[old(self)@.messages.len() as int].role == Role::User
                &&& final(self)@.messages[old(self)@.messages.len() as int].content == contents@
                &&& final(self)@.messages.last().id == old(self)@.msg_id_counter + 1
            },
    {
        let payload = self.build_request_payload(&contents);
        let outcome = client.complete(payload, self.model.as_str());
        self.apply_completion(contents, outcome)
    }

    /// Returns a reference to the collection of messages in this session.
    pub fn get_messages(&self) -> (r: &Vec<Message>)
        ensures
            r@.len() == self@.messages.len(),
            forall|i: int| 0 <= i < r@.len() ==> (#[trigger] r@[i])@ == self@.messages[i],
    {
        &self.messages
    }
}

} // verus!

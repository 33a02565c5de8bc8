//! One conversation turn: the two wire shapes exchanged with the completion
//! endpoint, and the `Message` record a session stores for each turn.

use vstd::prelude::*;

verus! {

/// The participant kind of one conversation turn.
#[derive(Clone, Copy, Debug, PartialEq, Eq, Structural)]
pub enum Role {
    System,
    User,
    Assistant,
}

/// Function-call metadata carried by the wire shapes. The store never fills
/// or reads it; it exists so the wire shapes are complete.
#[derive(Debug)]
pub struct FunctionCall {
    pub name: String,
    pub arguments: String,
}

/// Outgoing wire shape: one role-tagged turn as sent to the completion
/// endpoint. `name` and `function_call` are always emitted as absent.
#[derive(Debug)]
pub struct ChatCompletionRequestMessage {
    pub role: Role,
    pub content: Option<String>,
    pub name: Option<String>,
    pub function_call: Option<FunctionCall>,
}

/// Incoming wire shape: one role-tagged turn as returned by the completion
/// endpoint. `function_call` is never read.
#[derive(Debug)]
pub struct ChatCompletionResponseMessage {
    pub role: Role,
    pub content: Option<String>,
    pub function_call: Option<FunctionCall>,
}

/// Common face of the two wire shapes: a role and a content text, where an
/// absent content reads as the empty text.
pub trait ChatMessageTrait {
    /// The role this message carries.
    spec fn spec_role(&self) -> Role;

    /// The content this message carries; empty when the content is absent.
    spec fn spec_content(&self) -> Seq<char>;

    /// Returns a copy of the role of this chat message.
    fn get_role(&self) -> (r: Role)
        ensures
            r == self.spec_role(),
    ;

    /// Returns a copy of the contents of this chat message, or an empty
    /// string if there is no content.
    fn get_content(&self) -> (c: String)
        ensures
            c@ == self.spec_content(),
    ;
}

impl ChatMessageTrait for ChatCompletionRequestMessage {
    open spec fn spec_role(&self) -> Role {
        self.role
    }

    open spec fn spec_content(&self) -> Seq<char> {
        match self.content {
            Some(c) => c@,
            None => Seq::empty(),
        }
    }

    fn get_role(&self) -> (r: Role) {
        self.role
    }

    fn get_content(&self) -> (c: String) {
        match &self.content {
            Some(c) => c.clone(),
            None => String::new(),
        }
    }
}

impl ChatMessageTrait for ChatCompletionResponseMessage {
    open spec fn spec_role(&self) -> Role {
        self.role
    }

    open spec fn spec_content(&self) -> Seq<char> {
        match self.content {
            Some(c) => c@,
            None => Seq::empty(),
        }
    }

    fn get_role(&self) -> (r: Role) {
        self.role
    }

    fn get_content(&self) -> (c: String) {
        match &self.content {
            Some(c) => c.clone(),
            None => String::new(),
        }
    }
}

/// Round trip between the outgoing wire shape and a stored record: a record
/// built from a wire request (`m.role` and `m.content` are what
/// `ChatMessageTrait` reads off `w`) keeps role and content exactly, and the
/// wire request built back from the record (as `to_chat_resquest_msg` builds
/// it) carries the same role and content. A wire request with absent content
/// reads as empty text, which returns as present-but-empty content, not as
/// absent: that edge is lossy by design.
pub proof fn lemma_request_round_trip(
    w: ChatCompletionRequestMessage,
    m: MessageView,
    w2: ChatCompletionRequestMessage,
)
    requires
        m.role == w.spec_role(),
        m.content == w.spec_content(),
        w2.role == m.role,
        w2.content matches Some(c) && c@ == m.content,
    ensures
        w2.spec_role() == w.spec_role(),
        w2.spec_content() == w.spec_content(),
        w.content is None ==> (w2.content matches Some(c) && c@ == Seq::<char>::empty()),
{
}

/// Mathematical image of a stored message.
pub struct MessageView {
    pub id: nat,
    pub content: Seq<char>,
    pub created_at: nat,
    pub role: Role,
}

/// One stored turn: immutable after creation, identified inside its session
/// by `id`, stamped with the wall-clock second of its construction.
#[derive(Debug)]
pub struct Message {
    id: usize,
    content: String,
    created_at: u64,
    role: Role,
}

/// Relies on std::time::SystemTime::now (with duration_since of the Unix
/// epoch) for the current wall-clock second; reads as zero when the clock
/// stands before the epoch. Nothing is assumed of the value.
#[verifier::external_body]
fn now_unix_seconds() -> u64 {
    match std::time::SystemTime::now().duration_since(std::time::UNIX_EPOCH) {
        Ok(d) => d.as_secs(),
        Err(_) => 0,
    }
}

impl View for Message {
    type V = MessageView;

    closed spec fn view(&self) -> MessageView {
        MessageView {
            id: self.id as nat,
            content: self.content@,
            created_at: self.created_at as nat,
            role: self.role,
        }
    }
}

impl Message {
    /// Create a new message with the given `id`, `role`, and `content`,
    /// stamped with the current wall-clock second.
    pub fn new(id: usize, role: Role, content: String) -> (m: Message)
        ensures
            m@.id == id,
            m@.role == role,
            m@.content == content@,
    {
        let created_at = now_unix_seconds();
        Message { id, content, created_at, role }
    }

    /// Returns a copy of the id of this message.
    pub fn get_id(&self) -> (r: usize)
        ensures
            r == self@.id,
    {
        self.id
    }

    /// Returns a copy of the contents of this message.
    pub fn get_content(&self) -> (r: String)
        ensures
            r@ == self@.content,
    {
        self.content.clone()
    }

    /// Returns a copy of the unix timestamp when this message was created.
    pub fn get_created_at(&self) -> (r: u64)
        ensures
            r == self@.created_at,
    {
        self.created_at
    }

    /// Returns a copy of the role of this message.
    pub fn get_role(&self) -> (r: Role)
        ensures
            r == self@.role,
    {
        self.role
    }

    /// Project this message into the outgoing wire shape. The `name` and
    /// `function_call` fields are left absent.
    pub fn to_chat_resquest_msg(&self) -> (r: ChatCompletionRequestMessage)
        ensures
            r.role == self@.role,
            r.content matches Some(c) && c@ == self@.content,
            r.name is None,
            r.function_call is None,
    {
        ChatCompletionRequestMessage {
            role: self.role,
            content: Some(self.content.clone()),
            name: None,
            function_call: None,
        }
    }

    /// Project this message into the incoming wire shape. The
    /// `function_call` field is left absent.
    pub fn to_chat_response_msg(&self) -> (r: ChatCompletionResponseMessage)
        ensures
            r.role == self@.role,
            r.content matches Some(c) && c@ == self@.content,
            r.function_call is None,
    {
        ChatCompletionResponseMessage {
            role: self.role,
            content: Some(self.content.clone()),
            function_call: None,
        }
    }
}

} // verus!

use chat_store::ChatCompletionRequestMessage;
use chat_store::ChatCompletionResponseMessage;
use chat_store::ChatSession;
use chat_store::CompletionClient;
use chat_store::CompletionError;
use chat_store::Role;

struct ReplyClient {
    role: Role,
    reply: String,
}

impl CompletionClient for ReplyClient {
    fn complete(
        &self,
        _messages: Vec<ChatCompletionRequestMessage>,
        _model: &str,
    ) -> Result<Vec<ChatCompletionResponseMessage>, CompletionError> {
        Ok(vec![ChatCompletionResponseMessage {
            role: self.role,
            content: Some(self.reply.clone()),
            function_call: None,
        }])
    }
}

struct FailingClient {
    text: String,
}

impl CompletionClient for FailingClient {
    fn complete(
        &self,
        _messages: Vec<ChatCompletionRequestMessage>,
        _model: &str,
    ) -> Result<Vec<ChatCompletionResponseMessage>, CompletionError> {
        Err(CompletionError::Client(self.text.clone()))
    }
}

struct EmptyClient;

impl CompletionClient for EmptyClient {
    fn complete(
        &self,
        _messages: Vec<ChatCompletionRequestMessage>,
        _model: &str,
    ) -> Result<Vec<ChatCompletionResponseMessage>, CompletionError> {
        Ok(Vec::new())
    }
}

fn user_request(content: &str) -> ChatCompletionRequestMessage {
    ChatCompletionRequestMessage {
        role: Role::User,
        content: Some(String::from(content)),
        name: None,
        function_call: None,
    }
}

#[test]
fn chat_models_test_create_chat_thread() {
    let id = 2;
    let title = String::from("Something");
    let mut ctd = ChatSession::new(id.clone(), title.clone(), "gpt-3.5-turbo");

    assert_eq!(ctd.get_id(), id);
    assert_eq!(ctd.get_title(), title);
    assert!(ctd.get_messages().is_empty());
    assert_eq!(ctd.get_msg_id_counter(), 0);

    ctd.rename_session("New title".to_string());
    assert_eq!(ctd.get_title(), "New title".to_string());
}

#[test]
fn lib_test_create_chat_thread() {
    let id = 2;
    let title = String::from("Something");
    let mut ctd = ChatSession::new(id.clone(), title.clone(), "gpt-3.5-turbo");

    assert_eq!(ctd.get_id(), id);
    assert_eq!(ctd.get_title(), title);
    assert!(ctd.get_messages().is_empty());
    assert_eq!(ctd.get_msg_id_counter(), 0);

    ctd.rename_session("New title".to_string());
    assert_eq!(ctd.get_title(), "New title".to_string());
}

#[test]
fn chat_models_test_session_add_and_remove() {
    let mut chs = ChatSession::new(25, String::from("Testing adding messages"), "gpt-3.5-turbo");

    for i in 0..6 {
        if i % 2 == 0 {
            let msg = ChatCompletionRequestMessage {
                role: Role::User,
                content: Some(String::from("Request chat")),
                name: None,
                function_call: None,
            };
            chs.add_chat_message(msg);
        } else {
            let msg = ChatCompletionResponseMessage {
                role: Role::Assistant,
                content: Some(String::from("Response chat")),
                function_call: None,
            };
            chs.add_chat_message(msg);
        }
    }

    assert_eq!(6, chs.get_messages().len());
    assert_eq!(
        chs.get_messages()[0].get_content(),
        String::from("Request chat")
    );
    assert_eq!(
        chs.get_messages()[1].get_content(),
        String::from("Response chat")
    );

    assert_eq!(0, chs.delete_message(0).unwrap().get_id());
    assert_eq!(5, chs.get_messages().len());

    assert_eq!(3, chs.delete_message(3).unwrap().get_id());
    assert_eq!(4, chs.get_messages().len());

    assert!(chs.delete_message(0).is_none());
    assert_eq!(4, chs.get_messages().len())
}

#[test]
fn lib_test_session_add_and_remove() {
    let mut chs = ChatSession::new(25, String::from("Testing adding messages"), "gpt-3.5-turbo");

    for i in 0..6 {
        if i % 2 == 0 {
            let msg = ChatCompletionRequestMessage {
                role: Role::User,
                content: Some(String::from("Request chat")),
                name: None,
                function_call: None,
            };
            chs.add_chat_message(msg);
        } else {
            let msg = ChatCompletionResponseMessage {
                role: Role::Assistant,
                content: Some(String::from("Response chat")),
                function_call: None,
            };
            chs.add_chat_message(msg);
        }
    }

    assert_eq!(6, chs.get_messages().len());
    assert_eq!(
        chs.get_messages()[0].get_content(),
        String::from("Request chat")
    );
    assert_eq!(
        chs.get_messages()[1].get_content(),
        String::from("Response chat")
    );

    assert_eq!(0, chs.delete_message(0).unwrap().get_id());
    assert_eq!(5, chs.get_messages().len());

    assert_eq!(3, chs.delete_message(3).unwrap().get_id());
    assert_eq!(4, chs.get_messages().len());

    assert!(chs.delete_message(0).is_none());
    assert_eq!(4, chs.get_messages().len())
}

#[test]
fn appended_ids_strictly_increase_even_after_deletions() {
    let mut chs = ChatSession::new(0, String::from("ids"), "model-x");
    assert_eq!(chs.add_chat_message(user_request("a")), 0);
    assert_eq!(chs.add_chat_message(user_request("b")), 1);
    assert_eq!(chs.add_chat_message(user_request("c")), 2);
    assert_eq!(
        chs.get_messages().iter().map(|m| m.get_id()).collect::<Vec<_>>(),
        vec![0, 1, 2]
    );

    assert_eq!(chs.delete_message(1).unwrap().get_id(), 1);
    assert_eq!(chs.add_chat_message(user_request("d")), 3);
    assert_eq!(chs.add_chat_message(user_request("e")), 4);

    let ids: Vec<usize> = chs.get_messages().iter().map(|m| m.get_id()).collect();
    assert_eq!(ids, vec![0, 2, 3, 4]);
    for w in ids.windows(2) {
        assert!(w[0] < w[1]);
    }
    assert!(!ids.contains(&1));
}

#[test]
fn delete_twice_returns_record_then_none() {
    let mut chs = ChatSession::new(0, String::from("twice"), "model-x");
    chs.add_chat_message(user_request("first"));
    chs.add_chat_message(user_request("second"));

    let removed = chs.delete_message(0);
    assert_eq!(removed.unwrap().get_content(), String::from("first"));
    assert_eq!(chs.get_messages().len(), 1);

    assert!(chs.delete_message(0).is_none());
    assert_eq!(chs.get_messages().len(), 1);
}

#[test]
fn submit_success_appends_user_turn_then_reply() {
    let client = ReplyClient { role: Role::Assistant, reply: String::from("hi there") };
    let mut chs = ChatSession::new(0, String::from("turns"), "model-x");
    chs.add_chat_message(user_request("earlier"));

    let r = chs.add_message(String::from("hello"), &client);
    assert!(r.is_ok());
    assert_eq!(chs.get_messages().len(), 3);

    let user_turn = &chs.get_messages()[1];
    assert_eq!(user_turn.get_role(), Role::User);
    assert_eq!(user_turn.get_content(), String::from("hello"));
    assert_eq!(user_turn.get_id(), 1);

    let reply = &chs.get_messages()[2];
    assert_eq!(reply.get_role(), Role::Assistant);
    assert_eq!(reply.get_content(), String::from("hi there"));
    assert_eq!(reply.get_id(), 2);
}

#[test]
fn submit_failure_leaves_messages_untouched() {
    let client = FailingClient { text: String::from("rate limited") };
    let mut chs = ChatSession::new(0, String::from("untouched"), "model-x");
    chs.add_chat_message(user_request("one"));
    chs.add_chat_message(user_request("two"));

    let before: Vec<(usize, String, Role, u64)> = chs
        .get_messages()
        .iter()
        .map(|m| (m.get_id(), m.get_content(), m.get_role(), m.get_created_at()))
        .collect();

    let r = chs.add_message(String::from("hello"), &client);
    assert!(matches!(r, Err(CompletionError::Client(t)) if t == "rate limited"));

    let after: Vec<(usize, String, Role, u64)> = chs
        .get_messages()
        .iter()
        .map(|m| (m.get_id(), m.get_content(), m.get_role(), m.get_created_at()))
        .collect();
    assert_eq!(before, after);
    assert_eq!(chs.get_msg_id_counter(), 2);
}

#[test]
fn submit_empty_choice_list_is_an_error() {
    let client = EmptyClient;
    let mut chs = ChatSession::new(0, String::from("empty"), "model-x");

    let r = chs.add_message(String::from("hello"), &client);
    assert!(matches!(r, Err(CompletionError::EmptyResponse)));
    assert!(chs.get_messages().is_empty());
    assert_eq!(chs.get_msg_id_counter(), 0);
}

#[test]
fn payload_carries_history_and_pending_turn_last() {
    let mut chs = ChatSession::new(0, String::from("payload"), "model-x");
    chs.add_chat_message(ChatCompletionRequestMessage {
        role: Role::System,
        content: Some(String::from("be brief")),
        name: None,
        function_call: None,
    });
    chs.add_chat_message(user_request("earlier"));

    let payload = chs.build_request_payload(&String::from("newest"));
    assert_eq!(payload.len(), 3);
    assert_eq!(payload[0].role, Role::System);
    assert_eq!(payload[0].content, Some(String::from("be brief")));
    assert_eq!(payload[1].role, Role::User);
    assert_eq!(payload[1].content, Some(String::from("earlier")));
    assert_eq!(payload[2].role, Role::User);
    assert_eq!(payload[2].content, Some(String::from("newest")));
    assert!(payload.iter().all(|m| m.name.is_none() && m.function_call.is_none()));
}

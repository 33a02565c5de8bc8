//! In-memory bookkeeping for the conversations of a chat client: messages,
//! sessions, and the store of all sessions. Every mutation that needs the
//! external completion endpoint goes through the `CompletionClient`
//! capability; everything else is plain, verified data manipulation.

pub mod messages;
pub mod session;
pub mod store;

pub use messages::ChatCompletionRequestMessage;
pub use messages::ChatCompletionResponseMessage;
pub use messages::ChatMessageTrait;
pub use messages::FunctionCall;
pub use messages::Message;
pub use messages::MessageView;
pub use messages::Role;
pub use session::ChatSession;
pub use session::ChatSessionView;
pub use session::CompletionClient;
pub use session::CompletionError;
pub use store::Store;
pub use store::StoreView;

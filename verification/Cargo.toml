[package]
name = "chat_store"
version = "0.1.0"
edition = "2021"
publish = false

[dependencies]
async-openai = { version = "=0.42.1", features = ["chat-completion"] }
tokio = { version = "=1.53.2", features = ["rt-multi-thread"] }

[package]
name = "chat_relay"
version = "0.1.0"
edition = "2021"
publish = false

[dependencies]
axum = { version = "*", features = ["ws"] }
tokio = { version = "*", features = ["rt-multi-thread", "macros", "net", "sync"] }

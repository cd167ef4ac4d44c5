[package]
name = "ink"
version = "0.1.0"
edition = "2021"
publish = false

[dependencies]
ratatui = "0.29"
tui-textarea = "0.7"
tokio = { version = "1", features = ["rt-multi-thread", "macros"] }
reqwest = { version = "0.12", default-features = false, features = ["stream"] }
futures-util = "0.3"
serde = { version = "1", features = ["derive"] }
serde_json = "1"

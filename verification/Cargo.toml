[package]
name = "llama_link"
version = "0.1.0"
edition = "2021"
publish = false

[dependencies]
bon = "*"
error_set = "*"
llmtoolbox = "*"
reqwest = { version = "0.12", default-features = false, features = ["json"] }
reqwest-eventsource = "*"
serde = { version = "1", features = ["derive"] }
serde_json = "1"
tokio-stream = "*"

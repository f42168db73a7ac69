[package]
name = "songbot"
version = "0.1.0"
edition = "2021"
publish = false

[dependencies]
base64 = "0.13"
iso8601 = "*"
reqwest = { version = "0.11", features = ["json"] }
serde = { version = "1", features = ["derive"] }
serenity = { version = "0.10", features = ["voice"] }
songbird = "0.2"
tokio = { version = "1", features = ["macros", "rt-multi-thread", "sync"] }

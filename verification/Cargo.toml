[package]
name = "brainzbot"
version = "0.1.0"
edition = "2021"
publish = false

[dependencies]
tokio = { version = "*", features = ["rt-multi-thread", "macros", "time"] }
reqwest = { version = "*", default-features = false }
redis = { version = "*", features = ["tokio-comp"] }
serde_json = "*"

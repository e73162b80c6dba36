[package]
name = "yuanshen_workarounds_bot"
version = "0.1.0"
edition = "2021"
publish = false

[dependencies]
bili-wbi-sign-rs = "*"
reqwest = { version = "*", default-features = false, features = ["cookies", "json"] }
reqwest-middleware = "*"
reqwest-retry = "*"
tokio = { version = "*", features = ["rt-multi-thread", "macros", "sync"] }
serde = { version = "*", features = ["derive"] }
anyhow = "*"
log = "*"

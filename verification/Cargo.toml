[package]
name = "jumia"
version = "0.1.0"
edition = "2021"
publish = false

[dependencies]
serenity = { version = "=0.10.10", features = ["unstable_discord_api"] }
serde_json = "1"
thiserror = "1"
tokio = { version = "1", features = ["macros", "rt-multi-thread"] }

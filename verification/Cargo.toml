[package]
name = "ss14_discord_bot"
version = "0.1.0"
edition = "2021"
publish = false

[dependencies]
rand = "*"
uuid = { version = "1", features = ["v4"] }
serde_json = "1"
log = "0.4"
thiserror = "*"
tokio = { version = "1", features = ["rt-multi-thread", "macros", "time"] }
reqwest = "*"
serenity = "*"
sqlx = { version = "0.8", default-features = false, features = ["runtime-tokio", "sqlite", "postgres", "uuid", "migrate"] }

[package]
name = "chime"
version = "0.1.0"
edition = "2021"
publish = false

[dependencies]
chrono = "0.4"
chrono-tz = "*"
envy = "0.4"
serde = "1"
serde_derive = "1"
tokio = { version = "1", features = ["macros", "rt-multi-thread"] }
twitter-v2 = "*"

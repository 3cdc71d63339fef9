[package]
name = "voice_notify"
version = "0.1.0"
edition = "2021"
publish = false

[dependencies]
rand = "=0.8.8"
serde_json = "=1.0.151"
serenity = "=0.12.5"
tokio = { version = "=1.53.2", features = ["macros", "rt-multi-thread"] }
frankenstein = { version = "=0.52.1", features = ["client-ureq"] }

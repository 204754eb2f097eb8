[package]
name = "voice_playback"
version = "0.1.0"
edition = "2021"
publish = false

[dependencies]
poise = "0.6"
serenity = "0.12"
songbird = { version = "0.5", features = ["builtin-queue"] }
reqwest = "0.12"
tokio = { version = "1", features = ["macros", "rt-multi-thread", "process"] }
tracing = "0.1"
dotenvy = "0.15"

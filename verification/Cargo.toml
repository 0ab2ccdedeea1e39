[package]
name = "music_bot"
version = "0.1.0"
edition = "2021"
publish = false

[dependencies]
crossbeam = "=0.8.5"
serenity = "=0.10.10"
serde = "=1.0.229"
serde_derive = "=1.0.229"
toml = "=0.5.11"
tokio = { version = "=1.54.1", features = ["full"] }

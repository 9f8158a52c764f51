[package]
name = "deck_osc"
version = "0.1.0"
edition = "2021"
publish = false

[dependencies]
rosc = "0.10"
axum = "0.7"
color-eyre = "0.6"
serde = { version = "1", features = ["derive"] }
serde_derive = "1"
serde_with = "3"
tokio = { version = "1", features = ["macros", "rt-multi-thread", "net", "fs", "io-util", "sync"] }
toml = "0.8"
tracing = "0.1"
tracing-subscriber = "0.3"

[dev-dependencies]
serde_json = "1"

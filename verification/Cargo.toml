[package]
name = "altaria"
version = "0.1.0"
edition = "2021"
publish = false

[dependencies]
hpack = "0.3"
chrono = "0.4"
tokio = { version = "1", features = ["net", "io-util", "rt-multi-thread", "macros", "sync"] }
futures = "0.3"
async-trait = "0.1"
anyhow = "1"
thiserror = "1"
serde = { version = "1", features = ["derive"] }
serde_json = "1"
tracing = "0.1"
tracing-subscriber = "0.3"

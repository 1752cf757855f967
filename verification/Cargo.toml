[package]
name = "lighting_client"
version = "0.1.0"
edition = "2021"
publish = false

[dependencies]
anyhow = "1"
chrono = { version = "=0.4.45", default-features = false, features = ["clock", "std"] }
futures-util = "0.3"
reqwest = { version = "=0.11.27", default-features = false }
secrecy = "=0.8.0"
serde = { version = "1", features = ["derive"] }
serde_json = "1"
signal-hook = "0.3"
tokio = { version = "1", features = ["macros", "rt-multi-thread", "time"] }
tracing = "0.1"
tracing-subscriber = { version = "0.3", features = ["env-filter"] }

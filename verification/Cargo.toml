[package]
name = "screenguard-agent"
version = "0.1.0"
edition = "2021"
publish = false

[dependencies]
anyhow = "1"
libsystemd = "0.7"
serde = { version = "1", features = ["derive"] }
tokio = { version = "1", features = ["macros", "rt-multi-thread", "signal", "sync", "time"] }
toml = "0.8"
tracing = "0.1"
tracing-subscriber = { version = "0.3", features = ["env-filter"] }

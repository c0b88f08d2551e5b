[package]
name = "walle_core"
version = "0.1.0"
edition = "2021"
publish = false

[dependencies]
base64 = "0.21"
dashmap = "5"
async-trait = "0.1"
clap = { version = "4", features = ["derive"] }
rmp-serde = "1"
serde = { version = "1", features = ["derive"] }
serde_json = "1"
thiserror = "1"
time = { version = "0.3", features = ["formatting", "parsing"] }
tokio = { version = "1", features = ["sync", "time", "rt-multi-thread", "macros"] }
toml = "0.8"
tracing = "0.1"
tracing-subscriber = { version = "0.3", features = ["env-filter", "time"] }

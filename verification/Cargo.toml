[package]
name = "agentgateway"
version = "0.1.0"
edition = "2021"
publish = false

[dependencies]
anyhow = "1"
arcstr = "1"
async-stream = "0.3"
bytes = "1"
chrono = { version = "0.4", default-features = false, features = ["clock", "std"] }
futures = "0.3"
notify = "*"
notify-debouncer-full = "*"
prometheus-client = "*"
prost = "*"
prost-types = "*"
serde = { version = "1", features = ["derive"] }
serde_json = "1"
thiserror = "2"
tokio = { version = "1", features = ["macros", "rt", "rt-multi-thread", "sync", "time"] }
tonic = "*"
tonic-prost = "*"
tracing = "0.1"
tracing-core = "0.1"

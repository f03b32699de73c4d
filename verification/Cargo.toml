[package]
name = "kipt"
version = "0.1.0"
edition = "2021"
publish = false

[dependencies]
starknet = "=0.6.0"
starknet-core = "=0.6.1"
starknet-signers = "=0.4.0"
serde_json = "1"
mlua = { version = "=0.9.9", features = ["lua54", "vendored"] }
clap = { version = "4", features = ["derive"] }
tokio = { version = "1", features = ["rt-multi-thread", "time"] }
futures = "0.3"
lazy_static = "1"
chrono = "0.4"
url = "2"
anyhow = "1"
tracing = "0.1"
tracing-log = "0.2"
tracing-subscriber = { version = "0.3", features = ["env-filter", "fmt"] }

[package]
name = "benchmark"
version = "0.1.0"
edition = "2021"
publish = false

[dependencies]
clap = { version = "4", features = ["derive"] }
clap_complete = "4"
falkordb = { version = "0.1", features = ["tokio"] }
futures = "0.3"
histogram = "0.11"
lazy_static = "1"
neo4rs = "0.8"
nix = { version = "0.29", features = ["signal"] }
nonzero = "*"
prometheus = "0.13"
redis = { version = "0.32", features = ["tokio-comp"] }
reqwest = { version = "0.12", default-features = false, features = ["gzip", "json"] }
serde = { version = "1", features = ["derive"] }
serde_json = "1"
strum = "0.26"
strum_macros = "0.26"
sysinfo = "0.33"
thiserror = "1"
tokio = { version = "1", features = ["full"] }
tokio-stream = { version = "0.1", features = ["io-util"] }
tracing = "0.1"
tracing-subscriber = { version = "0.3", features = ["env-filter"] }

[package]
name = "agentenv"
version = "0.1.0"
edition = "2021"
publish = false

[dependencies]
anyhow = "1"
async-trait = "0.1"
axum = { version = "0.8", default-features = false, features = ["json", "tokio", "http1"] }
base64 = "0.22"
clap = { version = "4", features = ["derive"] }
futures = "0.3"
hex = "0.4"
http = "1"
nix = { version = "0.29", features = ["fs", "user"] }
opendal = { version = "0.54", default-features = false, features = ["services-s3"] }
reqwest = { version = "0.12", default-features = false }
serde = { version = "1", features = ["derive"] }
serde_json = "1"
sha2 = "0.10"
tempfile = "3"
thiserror = "2"
tokio = { version = "1", features = ["fs", "io-util", "macros", "net", "rt", "rt-multi-thread", "signal", "sync", "time"] }
tracing = "0.1"
uuid = { version = "1", features = ["v4", "v7"] }

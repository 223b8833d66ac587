[package]
name = "rust_tier"
version = "0.1.0"
edition = "2021"
publish = false

[dependencies]
pnet = "0.35"
ipnetwork = "0.20"
libp2p = { version = "0.54", features = ["tcp", "noise", "yamux", "tokio"] }
libp2p-stream = "0.2.0-alpha"
tokio = { version = "1", features = ["rt-multi-thread", "macros", "io-util"] }
futures = "0.3"
tun-rs = { version = "1", features = ["async"] }
async-trait = "0.1"
config = { version = "0.15", default-features = false, features = ["yaml"] }
serde = { version = "1", features = ["derive"] }
tracing = "0.1"
tracing-subscriber = { version = "0.3", default-features = false, features = ["env-filter", "fmt", "registry", "std"] }
clap = { version = "4", default-features = false, features = ["std", "derive", "help", "usage", "error-context"] }

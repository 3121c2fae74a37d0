[package]
name = "sbv_primitives"
version = "0.1.0"
edition = "2021"
publish = false

[dependencies]
alloy = { version = "=1.0.42", default-features = false, features = ["std", "consensus", "eips", "serde"] }
tiny-keccak = { version = "=2.0.2", features = ["keccak"] }
revm = { version = "=30.2.0", default-features = false, features = ["std"] }
anyhow = "=1.0.104"
clap = { version = "=4.6.7", features = ["derive"] }
log = "=0.4.34"
serde = { version = "=1.0.229", features = ["derive"] }
serde_json = "=1.0.154"
tokio = { version = "=1.54.1", features = ["rt-multi-thread", "macros", "fs"] }
tracing-subscriber = { version = "=0.3.23", features = ["env-filter"] }

[package]
name = "gastimator"
version = "0.1.0"
edition = "2021"
publish = false

[dependencies]
alloy-consensus = "=2.5.0"
alloy-primitives = { version = "=1.7.3", features = ["serde"] }
async-trait = "0.1"
axum = { version = "=0.8.9", default-features = false, features = ["json", "tokio", "http1"] }
clap = { version = "=4.6.7", default-features = false, features = ["derive", "std", "help", "usage", "error-context"] }
dashmap = "=6.2.1"
hex = "=0.4.3"
log = "=0.4.34"
reqwest = { version = "=0.12.28", default-features = false, features = ["json"] }
revm = { version = "=43.0.3", default-features = false, features = ["std", "optional_balance_check"] }
serde = { version = "=1.0.229", features = ["derive"] }
serde_json = "=1.0.154"
thiserror = "=2.0.21"
tokio = { version = "=1.54.1", features = ["rt-multi-thread", "macros", "net", "sync"] }

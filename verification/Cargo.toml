[package]
name = "nix-installer"
version = "0.1.0"
edition = "2021"
publish = false

[dependencies]
async-trait = "0.1"
owo-colors = "3"
semver = { version = "1", features = ["serde"] }
serde = { version = "1", features = ["derive"] }
serde_json = "1"
thiserror = "1"
tokio = { version = "1", features = ["sync", "fs", "rt", "time"] }
tracing = "0.1"

[package]
name = "cargo-analyze"
version = "0.1.0"
edition = "2021"
publish = false

[dependencies]
anyhow = "=1.0.104"
cargo_metadata = "=0.23.1"
clap = { version = "=4.6.7", features = ["derive"] }
goblin = "=0.10.7"
serde_json = "=1.0.154"

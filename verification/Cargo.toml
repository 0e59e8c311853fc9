[package]
name = "scaffold"
version = "0.1.0"
edition = "2021"
publish = false

[dependencies]
cargo_metadata = "0.18"
chrono = { version = "0.4", features = ["serde"] }
rrgen = "0.5"
serde_json = "1"

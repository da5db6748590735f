[package]
name = "spell"
version = "0.1.0"
edition = "2021"
publish = false

[dependencies]
cid = "0.11"
eyre = "0.6"
marine-rs-sdk = "0.14"
marine-sqlite-connector = "0.11"
serde = { version = "1", features = ["derive"] }
serde_json = "1"
sha2 = "0.10"
thiserror = "1"

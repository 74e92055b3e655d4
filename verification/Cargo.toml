[package]
name = "async-serde"
version = "0.1.0"
edition = "2021"
publish = false

[dependencies]
serde = "1"
futures = "0.3"
async-trait = "0.1"

[dev-dependencies]
serde_json = "1"

[package]
name = "config_resolver"
version = "0.1.0"
edition = "2021"
publish = false

[dependencies]
bs58 = "0.5"
primitive-types = "0.12"
serde = { version = "1", features = ["derive"] }
serde_json = "1"

[package]
name = "rusty_swagger"
version = "0.1.0"
edition = "2021"
publish = false

[dependencies]
regex = "1"
yaml-rust = "0.4"
mustache = "0.9"
serde = { version = "1", features = ["derive"] }
serde_derive = "1"
reqwest = { version = "0.12", features = ["blocking", "gzip"] }

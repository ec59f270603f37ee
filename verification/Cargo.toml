[package]
name = "wiki"
version = "0.1.0"
edition = "2021"
publish = false

[dependencies]
reqwest = "0.9"
serde_json = "1"

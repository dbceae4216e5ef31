[package]
name = "udemy_http"
version = "0.1.0"
edition = "2021"
publish = false

[dependencies]
failure = "0.1"
reqwest = "0.9"
serde_json = "1.0"

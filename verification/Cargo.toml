[package]
name = "event_hub"
version = "0.1.0"
edition = "2021"
publish = false

[dependencies]
futures = "0.1"
serde_json = "1"
tokio = "0.1"

[package]
name = "state_events"
version = "0.1.0"
edition = "2021"
publish = false

[dependencies]
js_int = "0.1"
ruma-identifiers = "0.16"
serde = "1"
serde_json = { version = "1", features = ["raw_value"] }

[package]
name = "rocket_validation"
version = "0.1.0"
edition = "2021"
publish = false

[dependencies]
rocket = { version = "0.5", features = ["json"] }
rocket_okapi = "0.9"
schemars = "0.8"
serde_json = "=1.0.154"
validator = "=0.18.1"

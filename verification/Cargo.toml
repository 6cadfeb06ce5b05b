[package]
name = "policy_bridge"
version = "0.1.0"
edition = "2021"
publish = false

[dependencies]
cedar-policy = "*"
serde = { version = "*", features = ["derive"] }
serde_json = "*"

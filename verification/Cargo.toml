[package]
name = "scim_v2"
version = "0.1.0"
edition = "2021"
publish = false

[dependencies]
serde_json = { version = "1", features = ["preserve_order"] }

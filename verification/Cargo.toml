[package]
name = "registry_auth"
version = "0.1.0"
edition = "2021"
publish = false

[dependencies]
base64 = "0.13"
hyperx = "*"
serde = { version = "*", features = ["derive"] }

[package]
name = "rhwp"
version = "0.1.0"
edition = "2021"
publish = false

[dependencies]
base64 = "0.22"
quick-xml = "*"
serde = { version = "1", features = ["derive"] }
serde_json = "1"

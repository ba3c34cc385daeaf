[package]
name = "neptunium"
version = "0.1.0"
edition = "2021"
publish = false

[dependencies]
sha2 = "*"
base64 = "*"
uuid = { version = "*", features = ["v4"] }
chrono = "*"

[dev-dependencies]
serde_json = "*"

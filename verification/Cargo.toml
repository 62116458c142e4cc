[package]
name = "nethsm-sdk-rs"
version = "0.1.0"
edition = "2021"
publish = false

[dependencies]
base64 = "0.22"
url = "2"
serde = { version = "1", features = ["derive"] }
serde_json = "1"
ureq = { version = "2", default-features = false }
multipart = { version = "0.18", default-features = false, features = ["client"] }

[dev-dependencies]

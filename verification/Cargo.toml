[package]
name = "nextcore_apls"
version = "0.1.0"
edition = "2021"
publish = false

[dependencies]
plist = "=1.10.3"
serde = { version = "=1.0.229", features = ["derive"] }
serde_json = "=1.0.154"
sha2 = "0.11"
thiserror = "=2.0.21"

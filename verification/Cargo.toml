[package]
name = "greentic_state"
version = "0.1.0"
edition = "2021"
publish = false

[dependencies]
serde = { version = "=1.0.229", features = ["derive"] }
serde_json = "=1.0.154"
base64 = "=0.22.1"
greentic-types = "=1.2.38173118925"
thiserror = "=2.0.21"
sha2 = "=0.11.1"

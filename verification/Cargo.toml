[package]
name = "attendance_core"
version = "0.1.0"
edition = "2021"
publish = false

[dependencies]
jsonwebtoken = { version = "=11.1.0", features = ["rust_crypto"] }
serde_json = "=1.0.151"

[dev-dependencies]
p256 = "*"

[package]
name = "carf"
version = "0.1.0"
edition = "2021"
publish = false

[dependencies]
frida = "=0.17.2"
rdev = "=0.5.3"
serde = { version = "=1.0.229", features = ["derive"] }
serde_json = "=1.0.154"

[package]
name = "payload_shell"
version = "0.1.0"
edition = "2021"
publish = false

[dependencies]
coffee-ldr = "=0.1.3"
comfy-table = "=8.0.1"
clearscreen = "=5.0.0"
serde = { version = "=1.0.229", features = ["derive"] }
serde_json = "=1.0.154"

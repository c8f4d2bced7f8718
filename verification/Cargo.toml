[package]
name = "loopback_pool"
version = "0.1.0"
edition = "2021"
publish = false

[dependencies]
serde = { version = "1", features = ["derive"] }
serde_json = "1"
signal-hook = "0.3"
sysinfo = { version = "*", default-features = false, features = ["system"] }
uuid = { version = "1", features = ["v4"] }

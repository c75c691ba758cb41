[package]
name = "ssh_connections"
version = "0.1.0"
edition = "2021"
publish = false

[dependencies]
uuid = { version = "1", features = ["v4"] }
serde = { version = "1", features = ["derive"] }
schemars = { version = "0.8", features = ["derive"] }
log = "0.4"

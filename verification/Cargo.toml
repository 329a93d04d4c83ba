[package]
name = "fleetcore"
version = "0.1.0"
edition = "2021"
publish = false

[dependencies]
ipnetwork = "=0.21.1"
chrono = "=0.4.45"
serde = { version = "=1.0.229", features = ["derive"] }
serde_json = "*"
uuid = { version = "=1.27.0", features = ["v4"] }

[package]
name = "agent_core"
version = "0.1.0"
edition = "2021"
publish = false

[dependencies]
serde_json = "*"
httpdate = "*"
fastrand = "*"
uuid = { version = "*", features = ["v4"] }
chrono = "*"

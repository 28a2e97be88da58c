[package]
name = "pir_motion_sensor"
version = "0.1.0"
edition = "2021"
publish = false

[dependencies]
log = "*"
rppal = "*"
serde = { version = "*", features = ["derive"] }
tokio = { version = "*", features = ["sync", "rt-multi-thread", "time", "macros"] }
tokio-util = "*"

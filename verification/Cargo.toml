[package]
name = "ble_session"
version = "0.1.0"
edition = "2021"
publish = false

[dependencies]
btleplug = "*"
tokio = { version = "*", features = ["rt", "macros", "time", "sync"] }
tokio-stream = "*"
tokio-util = "*"
uuid = "*"

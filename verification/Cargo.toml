[package]
name = "orbit_ws_transport"
version = "0.1.0"
edition = "2021"
publish = false

[dependencies]
tokio = { version = "*", features = ["sync", "rt"] }
tokio-tungstenite = "*"
futures-util = "*"

[package]
name = "can_bridge"
version = "0.1.0"
edition = "2021"
publish = false

[dependencies]
hex = "0.4"
serde_json = "1"
serde = { version = "1", features = ["derive"] }
axum = { version = "0.6", features = ["ws", "headers"] }
headers = "0.3"
tokio = { version = "1", features = ["full"] }
tokio-socketcan = "0.3"
futures-util = "0.3"
tower-http = { version = "0.4", features = ["trace"] }
rust-embed = "6"
mime_guess = "2"
local-ip-address = "0.5"
sscanf = "0.4"
aquamarine = "0.1"

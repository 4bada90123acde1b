[package]
name = "socket_mode"
version = "0.1.0"
edition = "2021"
publish = false

[dependencies]
serde_json = "1"
url = "2"
serde = { version = "1", features = ["derive"] }
surf = "2"
async-std = { version = "1", features = ["attributes"] }
async-tls = "*"
async-tungstenite = "*"
tungstenite = "*"
futures-util = "0.3"
dotenv = "0.15"

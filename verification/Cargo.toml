[package]
name = "clipflow"
version = "0.1.0"
edition = "2021"
publish = false

[dependencies]
base64 = "0.22"
image = "0.24"
serde = { version = "1", features = ["derive"] }
serde_json = "1"
chrono = "0.4"
rusqlite = { version = "0.31", features = ["bundled"] }
dirs = "5"
arboard = "3"
actix-web = "4"
actix-multipart = "0.7"
futures-util = "0.3"
tokio = { version = "1", features = ["sync", "rt"] }
tokio-stream = { version = "0.1", features = ["sync"] }
reqwest = { version = "0.12", default-features = false, features = ["json", "rustls-tls"] }
local-ip-address = "0.6"
notify-rust = "4"

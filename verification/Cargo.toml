[package]
name = "ssh_assistant"
version = "0.1.0"
edition = "2021"
publish = false

[dependencies]
ssh2 = "=0.9.6"
serde = { version = "=1.0.229", features = ["derive"] }
serde_json = "=1.0.154"
chrono = { version = "=0.4.45", features = ["serde"] }
sha2 = "=0.10.9"
hex = "=0.4.3"
uuid = { version = "=1.29.0", features = ["v4"] }
tokio = { version = "=1.54.1", features = ["rt", "sync", "time"] }
dirs = "=5.0.1"
socket2 = { version = "=0.5.10", features = ["all"] }
rusqlite = { version = "=0.31.0", features = ["bundled"] }
ssh-key = "=0.6.7"

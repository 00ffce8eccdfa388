[package]
name = "astrid_capsule"
version = "0.1.0"
edition = "2021"
publish = false

[dependencies]
blake3 = "1"
dashmap = "6"
hex = "0.4"
nix = { version = "*", features = ["signal", "process", "user"] }
rand = "*"
serde = { version = "1", features = ["derive"] }
serde_json = "1"
socket2 = { version = "*", features = ["all"] }
tempfile = "3"
tokio = { version = "1", features = ["full"] }
tokio-util = "0.7"
uuid = { version = "1", features = ["v4"] }

[package]
name = "picodata"
version = "0.1.0"
edition = "2021"
publish = false

[dependencies]
raft = "=0.7.0"
rmp-serde = "=1.3.1"
serde = { version = "=1.0.229", features = ["derive"] }
serde_bytes = "=0.11.19"
serde_json = "=1.0.154"
tarantool = { version = "=5.0.0", features = ["picodata"] }
thiserror = "=1.0.69"

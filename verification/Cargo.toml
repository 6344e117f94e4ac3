[package]
name = "robomaster_rust"
version = "0.1.0"
edition = "2021"
publish = false

[dependencies]
socketcan = "*"
thiserror = "*"
toml = "*"

[dependencies.tokio]
version = "*"
features = ["time"]

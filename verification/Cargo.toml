[package]
name = "noti"
version = "0.1.0"
edition = "2021"
publish = false

[dependencies]
anyhow = "*"
env_logger = "*"
futures-util = "*"
log = "*"
notify-rust = "*"
tokio = { version = "*", features = ["rt", "sync", "time", "macros"] }
tokio-udev = "*"
udev = "*"
zbus = "*"

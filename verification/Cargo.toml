[package]
name = "hid_api"
version = "0.1.0"
edition = "2021"
publish = false

[dependencies]
anyhow = "1"
env_logger = "*"
glob = "0.3"
log = "0.4"
tokio = { version = "1", features = ["rt-multi-thread", "fs", "io-util", "time"] }
usb-gadget = "*"

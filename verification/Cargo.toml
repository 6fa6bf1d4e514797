[package]
name = "wasefire_core"
version = "0.1.0"
edition = "2021"
publish = false

[dependencies]
usb-device = "*"
usbd-serial = "*"
rand = "*"
sha2 = "*"
stack-sizes = "*"
rustc-demangle = "*"
clap = { version = "*", features = ["derive"] }
anyhow = "*"
env_logger = "*"
critical-section = { version = "*", features = ["std"] }

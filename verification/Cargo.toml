[package]
name = "openh264_bridge"
version = "0.1.0"
edition = "2021"
publish = false

[dependencies]
openh264 = { version = "*", features = ["source"] }
flowly = "*"
tokio = { version = "*", features = ["rt", "rt-multi-thread"] }
futures = "*"
async-stream = "*"
bytes = "*"
thiserror = "*"

[package]
name = "char_device"
version = "0.1.0"
edition = "2021"
publish = false

[dependencies]
rustix = { version = "=1.1.5", features = ["fs"] }
io-lifetimes = "=3.0.1"
io-extras = "=0.19.0"
winx = "=0.36.4"
tokio = { version = "=1.54.1", features = ["fs", "io-util"] }
async-std = { version = "=1.13.2", features = ["io_safety"] }

[package]
name = "rk_loader"
version = "0.1.0"
edition = "2021"
publish = false

[dependencies]
crc = "3"
nusb = "0.1"
clap = { version = "4", features = ["derive"] }
env_logger = "0.11"
log = "0.4"
async-io = "2"
futures-lite = "2"

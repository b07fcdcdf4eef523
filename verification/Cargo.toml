[package]
name = "futures_time"
version = "0.1.0"
edition = "2021"
publish = false

[dependencies]
async-channel = "1"
async-io = "1"
futures-core = "0.3"
pin-project-lite = "0.2"

[dev-dependencies]
futures-lite = "1"

[package]
name = "async_ssh2_lite"
version = "0.1.0"
edition = "2021"
publish = false

[dependencies]
ssh2 = "=0.9.6"
tokio = { version = "=1.53.2", features = ["net", "time", "rt", "sync", "io-util"] }
async-io = "=2.6.0"
async-trait = "=0.1.92"
futures-util = { version = "=0.3.34", features = ["io"] }
bb8 = "=0.9.1"

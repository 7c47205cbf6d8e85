[package]
name = "minta"
version = "0.1.0"
edition = "2021"
publish = false

[dependencies]
miniscript = "12"
rand = "0.8"
bitcoincore-rpc = "0.19"
async-channel = "2"
tokio = { version = "1", features = ["rt-multi-thread", "macros", "time"] }
log = "0.4"
fern = "0.6"
chrono = "0.4"
colored = "2"
iced = { version = "0.12", default-features = false, features = ["tokio"] }
iced_runtime = "0.12"
serde = { version = "1", features = ["derive"] }
serde_yaml = "0.9"

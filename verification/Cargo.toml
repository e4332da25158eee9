[package]
name = "capitol_trades"
version = "0.1.0"
edition = "2021"
publish = false

[dependencies]
regex = "=1.13.1"
serde_json = "=1.0.154"
chrono = "=0.4.45"
num-decimal = { version = "=0.2.5", default-features = false, features = ["num-v04"] }
apca = "=0.31.0"
tokio = { version = "=1.54.1", features = ["macros", "rt-multi-thread"] }
clap = { version = "=4.6.7", features = ["derive"] }
reqwest = { version = "=0.12.28", default-features = false }

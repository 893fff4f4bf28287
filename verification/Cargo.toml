[package]
name = "live_chat"
version = "0.1.0"
edition = "2021"
publish = false

[dependencies]
regex = "*"
url = "*"
serde = { version = "*", features = ["derive"] }
simd-json = "*"
reqwest = { version = "*", default-features = false }
tokio = { version = "*", features = ["sync", "rt", "macros"] }
futures-util = "*"
async-stream = "*"
thiserror = "*"

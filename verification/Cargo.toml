[package]
name = "fog_space"
version = "0.1.0"
edition = "2021"
publish = false

[dependencies]
async-stream = "0.3"
crossbeam-channel = "0.5"
dashmap = "6"
image = { version = "0.25", default-features = false }
image_hasher = "3"
salvo = { version = "0.89", features = ["sse"] }
serde = { version = "1", features = ["derive"] }
serde-aux = "4"
tokio = { version = "1", features = ["full"] }
tracing = "0.1"
tracing-subscriber = "0.3"
uuid = { version = "1", features = ["v4", "serde"] }

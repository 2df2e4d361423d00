[package]
name = "rx_scheduler"
version = "0.1.0"
edition = "2021"
publish = false

[dependencies]
futures = { version = "0.3", features = ["executor", "thread-pool"] }
async-std = "1"
tokio = { version = "1", features = ["rt", "rt-multi-thread"] }

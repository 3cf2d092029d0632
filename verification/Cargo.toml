[package]
name = "dispatch_pool"
version = "0.1.0"
edition = "2021"
publish = false

[dependencies]
async-channel = "2"
futures = "0.3"
smallvec = "1"
tokio = { version = "1", features = ["rt", "rt-multi-thread", "sync", "time"] }
tracing = "0.1"
clap = { version = "4", features = ["derive"] }
ruma = { version = "*", features = ["events"] }
rocksdb = { version = "*", default-features = false }

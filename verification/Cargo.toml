[package]
name = "delegate_rs"
version = "0.1.0"
edition = "2021"
publish = false

[dependencies]
dashmap = "6"
futures = "0.3"
log = "0.4"
once_cell = "1"
thiserror = "2"
tokio = { version = "1", features = ["macros", "rt", "rt-multi-thread", "sync", "time"] }

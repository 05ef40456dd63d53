[package]
name = "hoststatus"
version = "0.1.0"
edition = "2021"
publish = false

[dependencies]
hyper = { version = "0.14", features = ["server", "http1", "tcp", "runtime"] }
tokio = { version = "1", features = ["rt-multi-thread", "macros", "fs", "time"] }
clap = { version = "4", features = ["derive"] }
env_logger = "0.11"
log = "0.4"

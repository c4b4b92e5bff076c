[package]
name = "pipeline_core"
version = "0.1.0"
edition = "2021"
publish = false

[dependencies]
env_logger = "0.10"
futures = "0.3"
hyper = { version = "0.14", features = ["http1", "server", "tcp", "runtime"] }
log = "0.4"
pin-project = "1"
tokio = { version = "1", features = ["rt-multi-thread", "macros", "time", "net"] }
tower = { version = "0.4", features = ["limit"] }

[package]
name = "coop_batch"
version = "0.1.0"
edition = "2021"
publish = false

[dependencies]
log = "*"
simple_logger = "*"
tokio = { version = "*", features = ["fs", "io-util", "macros", "rt-multi-thread", "time"] }

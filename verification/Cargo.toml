[package]
name = "mount_harness"
version = "0.1.0"
edition = "2021"
publish = false

[dependencies]
anyhow = "1"
tempfile = "3"
tokio = { version = "1", features = ["rt", "process", "time", "fs"] }

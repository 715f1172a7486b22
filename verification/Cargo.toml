[package]
name = "shrieker"
version = "0.1.0"
edition = "2021"
publish = false

[dependencies]
dirs = "=7.0.0"
sculk = { version = "=0.6.2", features = ["persist"] }
tokio = { version = "=1.54.1", features = ["rt-multi-thread", "sync", "time", "macros"] }

[package]
name = "editor"
version = "0.1.0"
edition = "2021"
publish = false

[dependencies]
tokio = { version = "1", features = ["fs", "rt", "rt-multi-thread"] }
rfd = "*"

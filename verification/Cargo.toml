[package]
name = "infer_dispatch"
version = "0.1.0"
edition = "2021"
publish = false

[dependencies]
tokio = { version = "1", features = ["rt-multi-thread", "sync"] }
uuid = { version = "1", features = ["v4"] }

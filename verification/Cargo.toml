[package]
name = "override_cache"
version = "0.1.0"
edition = "2021"
publish = false

[dependencies]
anyhow = "1"
bcs = "0.1.6"
futures = "0.3"
tokio = { version = "1", features = ["rt"] }

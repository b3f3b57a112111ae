[package]
name = "lifx_client"
version = "0.1.0"
edition = "2021"
publish = false

[dependencies]
tokio = { version = "1", features = ["net", "sync", "rt-multi-thread", "macros"] }

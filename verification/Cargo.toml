[package]
name = "crossy_multi_core"
version = "0.1.0"
edition = "2021"
publish = false

[dependencies]
froggy-rand = "*"
serde = { version = "1", features = ["derive"] }
serde_json = "1"
flexbuffers = "*"
tokio = { version = "1", features = ["sync", "time", "rt-multi-thread", "macros"] }
warp = { version = "0.3", features = ["compression"] }
futures = "0.3"
chrono = "0.4"

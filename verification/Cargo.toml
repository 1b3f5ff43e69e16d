[package]
name = "fetch_bridge"
version = "0.1.0"
edition = "2021"
publish = false

[dependencies]
once_cell = "1"
reqwest = { version = "0.12", features = ["json"] }
rquickjs = "0.6"
serde_json = "1"
tokio = { version = "1", features = ["rt-multi-thread"] }

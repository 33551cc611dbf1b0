[package]
name = "hydradx_service"
version = "0.1.0"
edition = "2021"
publish = false

[dependencies]
serde_json = { version = "1", features = ["preserve_order"] }
futures = "0.3"
tokio = { version = "1", features = ["time"] }
sc-executor-common = "0.36.0"

[package]
name = "workflow_client"
version = "0.1.0"
edition = "2021"
publish = false

[dependencies]
serde_json = "1"
mime = "0.3"
reqwest = { version = "0.12", default-features = false, features = ["multipart"] }
uuid = "1"
chrono = { version = "0.4", default-features = false, features = ["std"] }

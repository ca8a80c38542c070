[package]
name = "org_pipeline"
version = "0.1.0"
edition = "2021"
publish = false

[dependencies]
celes = "=2.8.2"
uuid = { version = "=1.27.0", features = ["v4"] }
serde = { version = "=1.0.229", features = ["derive"] }
serde_json = "=1.0.151"

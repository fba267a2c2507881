[package]
name = "pubsub_pipeline"
version = "0.1.0"
edition = "2021"
publish = false

[dependencies]
anyhow = "1"
envy = "0.4"
google-cloud-googleapis = "0.16"
google-cloud-pubsub = "=0.30.0"
serde = { version = "1", features = ["derive"] }
tokio = { version = "1", features = ["rt-multi-thread", "macros"] }

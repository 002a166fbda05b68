[package]
name = "zerotier_bridge"
version = "0.1.0"
edition = "2021"
publish = false

[dependencies]
anyhow = "1"
http = "0.2"
reqwest = "0.11"
tokio = { version = "1", features = ["full"] }
zerotier-central-api = "*"
zerotier-one-api = "*"

[package]
name = "cluster_node"
version = "0.1.0"
edition = "2021"
publish = false

[dependencies]
serde = { version = "1", features = ["derive"] }
serde_json = "1"
eyre = "0.6"
ulid = "1"

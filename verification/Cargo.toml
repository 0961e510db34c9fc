[package]
name = "yesgrok"
version = "0.1.0"
edition = "2021"
publish = false

[dependencies]
clap = { version = "4", features = ["derive"] }
hyper = { version = "0.14", features = ["full"] }
serde_json = "1"
tokio = { version = "1", features = ["full"] }

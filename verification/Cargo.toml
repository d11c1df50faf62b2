[package]
name = "thoughts"
version = "0.1.0"
edition = "2021"
publish = false

[dependencies]
http = "0.2"
serde = { version = "1", features = ["derive"] }
serde_json = "1"
tokio = { version = "1", features = ["rt"] }
warp = { version = "0.3", default-features = false }

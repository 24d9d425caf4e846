[package]
name = "bs_utility"
version = "0.1.0"
edition = "2021"
publish = false

[dependencies]
serde = { version = "1", features = ["derive"] }
toml = "0.8"
tokio = { version = "1", features = ["sync", "time", "rt"] }
rfd = "0.15"

[package]
name = "nextest_core"
version = "0.1.0"
edition = "2021"
publish = false

[dependencies]
camino = { version = "1", features = ["serde1"] }
chrono = { version = "0.4", default-features = false, features = ["std", "clock"] }
quick-junit = "*"
serde = { version = "1", features = ["derive"] }
serde_json = "1"
tokio = { version = "1", features = ["fs", "io-util"] }

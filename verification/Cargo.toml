[package]
name = "tda_broker"
version = "0.1.0"
edition = "2021"
publish = false

[dependencies]
chrono = "*"
urlencoding = "*"
serde = { version = "*", features = ["derive"] }
tokio = { version = "*", features = ["rt", "rt-multi-thread"] }
reqwest = { version = "*", default-features = false, features = ["form", "json"] }

[package]
name = "activity_log"
version = "0.1.0"
edition = "2021"
publish = false

[dependencies]
chrono = "*"
reqwest = { version = "*", default-features = false }
tokio = { version = "*", features = ["rt", "time", "macros"] }

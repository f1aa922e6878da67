[package]
name = "shutdown_timer"
version = "0.1.0"
edition = "2021"

[dependencies]
chrono = "0.4"
iced = { version = "0.14", features = ["tokio"] }

[package]
name = "clipboard_history"
version = "0.1.0"
edition = "2021"
publish = false

[dependencies]
chrono = "0.4"
clipboard = "0.5"
serde = { version = "1", features = ["derive"] }

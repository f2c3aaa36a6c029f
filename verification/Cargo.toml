[package]
name = "itch_shell"
version = "0.1.0"
edition = "2021"
publish = false

[dependencies]
reqwest = "0.11"
serde = { version = "1", features = ["derive"] }
winapi = { version = "0.3", features = ["winuser"] }

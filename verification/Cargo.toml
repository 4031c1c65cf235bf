[package]
name = "runixeer"
version = "0.1.0"
edition = "2021"
publish = false

[dependencies]
clap = { version = "4", features = ["derive"] }
freedesktop-desktop-entry = "0.7"
ron = "0.8"
serde = { version = "1", features = ["derive"] }

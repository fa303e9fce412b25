[package]
name = "echocast"
version = "0.1.0"
edition = "2021"
publish = false

[dependencies]
macos-accessibility-client = "=0.0.2"
rdev = "0.5"
serde = { version = "1", features = ["derive"] }

[package]
name = "circulartrackpad"
version = "0.1.0"
edition = "2021"
publish = false

[dependencies]
clap = { version = "4", features = ["derive"] }
evdev = "0.13"
serde = { version = "1", features = ["derive"] }
toml = "0.8"

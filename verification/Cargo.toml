[package]
name = "oneberry-devkit"
version = "0.3.0"
edition = "2021"
publish = false

[dependencies]
serde = { version = "1", features = ["derive"] }
serde_json = "1"
chrono = "0.4"
dirs-next = "2"
tokio = { version = "1", features = ["time", "rt-multi-thread", "macros"] }

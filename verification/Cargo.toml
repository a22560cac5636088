[package]
name = "steady_rs"
version = "0.1.0"
edition = "2021"
publish = false

[dependencies]
serde = { version = "1", features = ["derive"] }
serialport = { version = "4", default-features = false }

[package]
name = "alarm_clock"
version = "0.1.0"
edition = "2021"
publish = false

[dependencies]
embassy-time = { version = "*", features = ["std"] }
time = "*"
serde = { version = "*", default-features = false, features = ["derive"] }
serde-json-core = "*"
heapless = { version = "*", features = ["serde"] }

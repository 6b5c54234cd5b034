[package]
name = "virtual_time"
version = "0.1.0"
edition = "2021"
publish = false

[dependencies]
fake_clock = "*"
futures = "0.3"
tokio = { version = "0.2", features = ["time", "macros", "rt-threaded"] }

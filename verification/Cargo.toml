[package]
name = "stock_monitor"
version = "0.1.0"
edition = "2021"
publish = false

[dependencies]
log = "*"
reqwest = { version = "*", default-features = false }
serde = { version = "*", features = ["derive"] }
serde_yaml = "*"
simple_logger = "*"
tokio = { version = "*", features = ["macros", "rt-multi-thread", "time"] }

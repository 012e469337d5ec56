[package]
name = "pingflow"
version = "0.1.0"
edition = "2021"
publish = false

[dependencies]
hostname = "*"
pinger = "*"
tokio = { version = "1", features = ["rt-multi-thread", "macros", "sync"] }
futures = "0.3"
figment = { version = "*", features = ["toml"] }
serde = { version = "1", features = ["derive"] }
log = "0.4"
env_logger = "*"
influxdb = "*"

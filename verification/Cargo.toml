[package]
name = "weather_station"
version = "0.1.0"
edition = "2021"
publish = false

[dependencies]
async-std = "*"
chrono = "*"
env_logger = "*"
influxdb = { version = "*", features = ["derive"] }
lazy_static = "*"
log = "*"
rocket = { version = "*", features = ["json"] }
rppal = "*"
serde = { version = "*", features = ["derive"] }
serde_json = "*"
toml = "*"

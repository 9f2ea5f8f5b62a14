[package]
name = "voltage_modbus"
version = "0.2.0"
edition = "2021"
publish = false

[dependencies]
crc = "3"
hex = "0.4"
tokio = { version = "1", features = ["full"] }
tokio-serial = "5"
async-trait = "0.1"
thiserror = "1"
serde = { version = "1", features = ["derive"] }
serde_json = "1"
log = "0.4"
env_logger = "0.10"
chrono = "0.4"
tracing = "0.1"
futures = "0.3"
rand = "0.8"

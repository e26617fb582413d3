[package]
name = "sensors_pub"
version = "0.1.0"
edition = "2021"
publish = false

[dependencies]
crc = "3"
rand = "0.8"
serde = { version = "1", features = ["derive"] }
serde_json = "1"
serde_yaml = "0.9"
log = "0.4"
env_logger = "0.11"
async-trait = "0.1"
tokio = { version = "1", features = ["macros", "rt-multi-thread", "time"] }
rumqttc = "0.24"
figment = { version = "0.10", features = ["yaml"] }
validator = { version = "0.18", features = ["derive"] }
gethostname = "0.4"
rppal = "0.19"
humantime-serde = "1"

[package]
name = "mqtt_garage"
version = "0.1.0"
edition = "2021"
publish = false

[dependencies]
log = "=0.4.34"
rumqttc = { version = "=0.24.0", default-features = false, features = ["url"] }
serde = { version = "=1.0.229", features = ["derive"] }
serde_json = "=1.0.154"
thiserror = "=1.0.69"
tokio = { version = "=1.54.1", features = ["macros", "rt", "sync", "time"] }
toml = "=0.8.23"

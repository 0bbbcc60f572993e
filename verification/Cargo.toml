[package]
name = "sensor_publisher"
version = "0.1.0"
edition = "2021"
publish = false

[dependencies]
clap = { version = "3.2", features = ["derive"] }
rumqttc = { version = "*", default-features = false }
serde_json = "1"

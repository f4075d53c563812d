[package]
name = "mqtt_session"
version = "0.1.0"
edition = "2021"
publish = false

[dependencies]
clap = { version = "*", features = ["derive"] }
pretty_env_logger = "*"
rumqttc = "*"
tokio = { version = "*", features = ["macros", "rt", "time"] }

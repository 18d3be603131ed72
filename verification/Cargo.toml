[package]
name = "mqtt_bench"
version = "0.1.0"
edition = "2021"
publish = false

[dependencies]
futures = "*"
rumqttc = "*"
thiserror = "*"
tokio = { version = "*", features = ["macros", "rt", "rt-multi-thread", "sync", "time"] }

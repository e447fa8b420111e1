[package]
name = "pc_mqtt_rs"
version = "0.1.0"
edition = "2021"
publish = false

[dependencies]
serde_json = "1"
rumqttc = { version = "*", default-features = false }
ctrlc = "*"

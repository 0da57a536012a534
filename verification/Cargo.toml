[package]
name = "utilkit"
version = "0.1.0"
edition = "2021"
publish = false

[dependencies]
anyhow = "1"
bytes = "1"
rand = "0.9"
reqwest = { version = "0.12", default-features = false, features = ["json"] }
rumqttc = { version = "0.24", default-features = false }
serde = "1"
serde_json = "1"
serde_yaml = "0.9"

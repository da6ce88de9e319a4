[package]
name = "applink"
version = "0.1.0"
edition = "2021"
publish = false

[dependencies]
hex = "0.4"
serde = { version = "1", features = ["derive"] }
serde_json = "1"
num_enum = "0.7"
log = "0.4"
rand = "0.8"
tokio = { version = "1", features = ["full"] }
tokio-util = "0.7"
futures-lite = "2"
rumqttc = "0.24"
reqwest = { version = "0.12", default-features = false, features = ["json", "rustls-tls"] }
lapin = "2"
amq-protocol-types = "7"

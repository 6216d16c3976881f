[package]
name = "payments_notifications"
version = "0.1.0"
edition = "2021"
publish = false

[dependencies]
sha2 = "0.10"
secp256k1 = "0.29"
lapin-futures = "0.13"
futures = "0.1"
tokio = "0.1"
tokio-core = "0.1"
hyper = "0.12"
hyper-tls = "0.3"
native-tls = "0.2"
r2d2 = "0.8"
clap = "2"
config = "0.9"
serde = "1"
serde_derive = "1"
serde_json = "1"
log = "0.4"
env_logger = "0.6"

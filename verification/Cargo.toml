[package]
name = "kopgen"
version = "0.1.0"
edition = "2021"
publish = false

[dependencies]
Inflector = "=0.11.4"
askama = "=0.12.1"
clap = { version = "=4.6.7", features = ["derive", "env"] }
dotenvy = "=0.15.7"
env_logger = "=0.11.11"
log = "=0.4.35"
openapiv3 = "=2.2.0"
serde = { version = "=1.0.229", features = ["derive"] }
serde_json = "=1.0.154"
serde_yaml = "=0.9.34"
thiserror = "=2.0.21"
uuid = "1"

[package]
name = "icu_monitor"
version = "0.1.0"
edition = "2021"
publish = false

[dependencies]
chrono = "*"
env_logger = "*"
extended-isolation-forest = "*"
futures-util = "*"
log = "*"
prost = "0.13"
reqwest = { version = "0.12", features = ["blocking"] }
serde = { version = "*", features = ["derive"] }
serde_json = "*"
sysinfo = "0.32"
tokio = { version = "*", features = ["full"] }
tokio-tungstenite = "0.24"
tonic = "0.12"

[package]
name = "arch_client"
version = "0.1.0"
edition = "2021"
publish = false

[dependencies]
futures-util = "=0.3.34"
grammers-client = "=0.5.0"
grammers-mtsender = "=0.5.0"
grammers-session = "=0.5.1"
log = "=0.4.34"
tokio = { version = "=1.53.2", features = ["rt-multi-thread", "signal"] }

[package]
name = "clip_sync"
version = "0.1.0"
edition = "2021"
publish = false

[dependencies]
clap = { version = "4", features = ["derive"] }
clipboard-rs = "*"
env_logger = "*"
log = "0.4"
rumqttc = "*"

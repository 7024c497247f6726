[package]
name = "paap_configurator"
version = "0.1.0"
edition = "2021"
publish = false

[dependencies]
confy = "0.6"
env_logger = "0.11"
log = "0.4"
serde = { version = "1.0", features = ["derive"] }
serialport = { version = "4.5", default-features = false }

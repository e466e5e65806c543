[package]
name = "ble_peripheral"
version = "0.1.0"
edition = "2021"
publish = false

[dependencies]
bluer = { version = "=0.17.4", features = ["bluetoothd"] }
env_logger = "=0.11.11"
futures = "*"
log = "=0.4.34"
tokio = { version = "=1.53.2", features = ["full"] }
uuid = "=1.27.0"

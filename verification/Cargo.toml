[package]
name = "allium"
version = "0.1.0"
edition = "2021"
publish = false

[dependencies]
anyhow = "1"
log = "0.4"
serde = { version = "1", features = ["derive"] }
serde_json = "1"
strum = { version = "0.26", features = ["derive"] }
sysfs_gpio = { version = "0.6", features = ["async-tokio"] }
futures = "0.3"
tokio = { version = "1", features = ["rt"] }
async-trait = "0.1"
parking_lot = "0.12"
type-map = "0.5"

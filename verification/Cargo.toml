[package]
name = "rtl2influx"
version = "0.1.0"
edition = "2021"
publish = false

[dependencies]
async-trait = "*"
config = "*"
futures = "*"
influxdb2 = "*"
serde = { version = "1", features = ["derive"] }
serde_with = "*"
task-supervisor = "*"
tokio = { version = "1", features = ["full"] }

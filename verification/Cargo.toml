[package]
name = "system_monitor"
version = "0.1.0"
edition = "2021"
publish = false

[dependencies]
flume = "0.11"
futures = "0.3"
parking_lot = "0.12"
sysinfo = { version = "0.29", default-features = false }

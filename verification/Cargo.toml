[package]
name = "ble_central"
version = "0.1.0"
edition = "2021"
publish = false

[dependencies]
async_once = "*"
btleplug = "*"
futures = "*"
lazy_static = "*"
log = "*"
simplelog = "*"

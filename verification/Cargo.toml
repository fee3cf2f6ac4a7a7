[package]
name = "esphome_client"
version = "0.1.0"
edition = "2021"
publish = false

[dependencies]
base64 = "*"
snow = "*"
prost = "*"
tokio = { version = "*", features = ["net", "time", "sync", "rt", "macros"] }
mdns-sd = "*"

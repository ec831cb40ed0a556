[package]
name = "laundry_control"
version = "0.1.0"
edition = "2021"
publish = false

[dependencies]
serde_json = "1"
base64 = "0.13"
urlencoding = "2"
ureq = "2"
chrono = "0.4"

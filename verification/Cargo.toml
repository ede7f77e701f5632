[package]
name = "geoip_pls"
version = "0.1.0"
edition = "2021"
publish = false

[dependencies]
worker = "*"
serde_json = "*"

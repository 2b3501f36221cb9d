[package]
name = "luarmor"
version = "0.1.0"
edition = "2021"
publish = false

[dependencies]
serde_json = "*"
api_builder = "*"
http = "*"

[package]
name = "s2proto"
version = "0.1.0"
edition = "2021"
publish = false

[dependencies]
serde = "*"
serde_json = "*"
prost-types = "*"
chrono = "*"

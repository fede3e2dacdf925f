[package]
name = "lx"
version = "0.1.0"
edition = "2021"
publish = false

[dependencies]
clap = { version = "3", features = ["derive"] }
local-ip-address = "*"
rand = "0.8"
serde = { version = "1", features = ["derive"] }
serde_json = "1"

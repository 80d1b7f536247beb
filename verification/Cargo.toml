[package]
name = "srd"
version = "0.1.0"
edition = "2021"
publish = false

[dependencies]
weasel = { version = "=0.11.0", features = ["random"] }
serde = { version = "=1.0.229", features = ["derive"] }

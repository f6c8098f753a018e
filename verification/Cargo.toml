[package]
name = "packetline"
version = "0.1.0"
edition = "2021"
publish = false

[dependencies]
bstr = "*"
serde = { version = "1", features = ["derive"] }

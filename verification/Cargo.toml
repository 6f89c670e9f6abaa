[package]
name = "lumon"
version = "0.1.0"
edition = "2021"
publish = false

[dependencies]
ddc-hi = "=0.4.1"
serde = { version = "1", features = ["derive"] }

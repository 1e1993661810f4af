[package]
name = "chain_extension_client"
version = "0.1.0"
edition = "2021"
publish = false

[dependencies]
parity-scale-codec = { version = "=3.7.5", features = ["derive"] }
scale-info = { version = "=2.11.6", features = ["derive"] }
ink = { version = "=4.3.0" }
sp-core = { version = "30" }

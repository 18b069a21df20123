[package]
name = "relayer_adapter"
version = "0.1.0"
edition = "2021"
publish = false

[dependencies]
axon-tools = { version = "=0.1.1", features = ["proof"] }
hex = "=0.4.3"
toml = "*"

[dev-dependencies]
bytes = "=1.12.1"

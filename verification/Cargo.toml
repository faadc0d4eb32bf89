[package]
name = "holochain_core"
version = "0.1.0"
edition = "2021"
publish = false

[dependencies]
snowflake = "1.3"
boolinator = "2.4"
toml = "0.5"
serde = { version = "1", features = ["derive"] }
serde_json = "1"
colored = "1"
bitflags = "1"
lazy_static = "1"

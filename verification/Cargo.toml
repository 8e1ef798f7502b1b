[package]
name = "pyr_tank"
version = "0.1.0"
edition = "2021"
publish = false

[dependencies]
rand = "=0.8.8"
serde = { version = "=1.0.229", features = ["derive"] }
bincode = "=1.3.3"
toml = "=0.8.23"
lazy_static = "=1.5.1"
log = "=0.4.35"
simple_logger = { version = "=4.3.3", default-features = false }
smol = "=2.0.2"
cfg-if = "=1.0.5"
candle-core = "0.9"
candle-nn = "0.9"

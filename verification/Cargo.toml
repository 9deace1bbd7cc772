[package]
name = "portmap"
version = "0.1.0"
edition = "2021"
publish = false

[dependencies]
crab_nat = "*"
default-net = "*"
futures = "*"
pin-utils = "*"
rupnp = "*"
tokio = { version = "*", features = ["macros", "rt-multi-thread"] }

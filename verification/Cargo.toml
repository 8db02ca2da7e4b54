[package]
name = "tysh"
version = "0.1.0"
edition = "2021"
publish = false

[dependencies]
proc-macro2 = "=1.0.107"
quote = "=1.0.47"
syn = "=2.0.119"

[dev-dependencies]
bincode = "=1.3.3"
serde = "=1.0.229"

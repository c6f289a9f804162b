[package]
name = "rollup_driver"
version = "0.1.0"
edition = "2021"
publish = false

[dependencies]
hex = "=0.4.3"
libc = "=0.2.191"
log = "=0.4.34"
serde = { version = "=1.0.229", features = ["derive"] }

[dev-dependencies]
regex = "1"

[package]
name = "vd_driver"
version = "0.1.0"
edition = "2021"
publish = false

[dependencies]
lru = "*"
crc32fast = "*"
dcv-color-primitives = "0.5"
tokio = { version = "1", features = ["rt-multi-thread", "net", "sync", "time", "io-util", "macros", "signal"] }
crossbeam = "*"

[dependencies.image]
version = "0.24"
default-features = false
features = ["png"]

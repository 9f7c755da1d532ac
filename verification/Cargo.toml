[package]
name = "flipper_rpc"
version = "0.1.0"
edition = "2021"
publish = false

[dependencies]
memchr = "*"
md5 = "*"
hex = "*"
serialport = { version = "*", default-features = false }

[dev-dependencies]
prost = "*"

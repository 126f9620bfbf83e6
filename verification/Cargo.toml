[package]
name = "pyembed"
version = "0.1.0"
edition = "2021"
publish = false

[dependencies]
uuid = { version = "=1.27.0", features = ["v4"] }
yaml-rust = "=0.4.5"

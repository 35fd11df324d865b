[package]
name = "napi_buffers"
version = "0.1.0"
edition = "2021"
publish = false

[dependencies]
napi-sys = { version = "*", features = ["napi9"] }

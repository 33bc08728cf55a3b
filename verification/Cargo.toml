[package]
name = "piet_wgpu"
version = "0.1.0"
edition = "2021"
publish = false

[dependencies]
ahash = "=0.8.12"
hashbrown = "=0.14.5"
naga_oil = "=0.13.0"
piet = "=0.6.2"
pollster = "0.3"
thiserror = "=1.0.69"
tracing = "=0.1.44"
unicode-width = "=0.1.14"
uuid = { version = "=1.29.0", features = ["v4"] }
wgpu = "=0.19.4"

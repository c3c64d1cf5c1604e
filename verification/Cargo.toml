[package]
name = "spirv_out"
version = "0.1.0"
edition = "2021"
publish = false

[dependencies]
anyhow = "=1.0.104"
clap = { version = "=4.6.7", features = ["derive"] }
spirv-builder = { version = "=0.10.0", default-features = false }

[package]
name = "static_router"
version = "0.1.0"
edition = "2021"
publish = false

[dependencies]
rocket = { version = "0.5", default-features = false }

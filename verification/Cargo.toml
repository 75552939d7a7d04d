[package]
name = "naga_remap"
version = "0.1.0"
edition = "2021"
publish = false

[dependencies]
hidapi = "*"
ron = "*"
serde = { version = "1", features = ["derive"] }

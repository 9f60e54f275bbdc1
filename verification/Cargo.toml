[package]
name = "engine"
version = "0.1.0"
edition = "2021"
publish = false

[dependencies]
slab = "0.4"
fastrand = "2"
lyon = "1"
rstar = "0.12"
serde = { version = "1", features = ["derive"] }
serde_json = "1"

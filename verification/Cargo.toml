[package]
name = "arroyo-planner"
version = "0.1.0"
edition = "2021"
publish = false

[dependencies]
datafusion = { version = "=50.3.0", default-features = false }
prost = { version = "=0.13.5", default-features = false, features = ["std"] }

[package]
name = "lagertha_runtime"
version = "0.1.0"
edition = "2021"
publish = false

[dependencies]
lasso = { version = "0.7", features = ["multi-threaded"] }

[package]
name = "nargo_debug"
version = "0.1.0"
edition = "2021"
publish = false

[dependencies]
acvm = "=0.43.0"
bn254_blackbox_solver = "=0.43.0"
clap = { version = "4", features = ["derive"] }
tokio = { version = "1", features = ["rt"] }

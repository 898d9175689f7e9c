[package]
name = "hyper_routing"
version = "0.1.0"
edition = "2021"
publish = false

[dependencies]
regex = "=1.13.1"
hyper = { version = "=1.11.1", features = ["http1", "server"] }
hyper-util = { version = "*", features = ["tokio"] }
http-body-util = "=0.1.5"
tokio = { version = "=1.53.2", features = ["full"] }
pretty_env_logger = "=0.5.0"

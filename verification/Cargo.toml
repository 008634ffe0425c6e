[package]
name = "netwatch"
version = "0.1.0"
edition = "2021"
publish = false

[dependencies]
bollard = "*"
futures-util = "*"
tokio = { version = "*", features = ["macros", "rt-multi-thread", "signal"] }

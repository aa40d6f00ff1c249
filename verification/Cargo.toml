[package]
name = "tgwsproxy"
version = "0.1.0"
edition = "2021"
publish = false

[dependencies]
hex = "0.4"
rand = "0.8"
tokio = { version = "1", features = ["rt-multi-thread", "rt", "net", "macros", "signal", "time"] }
tokio-util = "0.7"
clap = { version = "4", features = ["derive"] }

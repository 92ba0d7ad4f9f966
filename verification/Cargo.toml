[package]
name = "service_core"
version = "0.1.0"
edition = "2021"
publish = false

[dependencies]
btoi = "0.4"
futures = "0.1"
net2 = "0.2"
tokio = { version = "0.1", default-features = false, features = ["reactor", "tcp"] }

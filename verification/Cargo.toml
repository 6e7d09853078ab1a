[package]
name = "brio_smart_tech"
version = "0.1.0"
edition = "2021"
publish = false

[dependencies]
btleplug = "*"
tokio = { version = "*", features = ["rt-multi-thread", "macros", "time", "sync"] }
uuid = "*"
futures = "*"

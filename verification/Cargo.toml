[package]
name = "bta30ctl"
version = "0.1.0"
edition = "2021"
publish = false

[dependencies]
btleplug = "0.11"
futures-util = "0.3"
tokio = { version = "1", features = ["macros", "rt-multi-thread"] }
uuid = "1"

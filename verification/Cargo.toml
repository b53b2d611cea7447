[package]
name = "any_bridge"
version = "0.1.0"
edition = "2021"
publish = false

[dependencies]
flume = "0.11"
futures-core = "0.3"
futures-util = "0.3"
sqlx-core = { version = "0.8", features = ["any"] }

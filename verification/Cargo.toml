[package]
name = "iqos"
version = "0.1.0"
edition = "2021"
publish = false

[dependencies]
async-trait = "0.1"
btleplug = "0.11"
futures = "0.3"
thiserror = "2"
tokio = { version = "1", features = ["macros", "rt-multi-thread", "time"] }
uuid = "1"

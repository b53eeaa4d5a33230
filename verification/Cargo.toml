[package]
name = "udp_server"
version = "0.1.0"
edition = "2021"
publish = false

[dependencies]
bytes = "1"
chrono = "0.4"
prost = "0.13"
rand = "0.8"
tokio = { version = "1", features = ["net", "rt-multi-thread", "macros", "sync", "time"] }
uuid = { version = "1", features = ["v4"] }

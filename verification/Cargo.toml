[package]
name = "erpc"
version = "0.1.0"
edition = "2021"
publish = false

[dependencies]
serde_json = { version = "=1.0.151", features = ["raw_value"] }
nanoid = "=0.5.0"
flume = "=0.12.0"
futures-util = "=0.3.34"
tokio = { version = "=1.53.2", features = ["rt-multi-thread", "macros", "sync", "net", "time"] }
warp = { version = "=0.4.3", features = ["server", "websocket"] }
reqwest = { version = "=0.13.5", default-features = false }

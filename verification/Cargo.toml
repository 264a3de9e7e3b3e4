[package]
name = "webhook2amqp"
version = "0.1.0"
edition = "2021"
publish = false

[dependencies]
mlua = { version = "=0.10.5", features = ["lua54", "vendored"] }
mime = "0.3"
uuid = { version = "1", features = ["v4"] }
hyper = { version = "=0.14.32", features = ["server", "http1", "tcp"] }
tokio = { version = "1", features = ["full"] }
lapin = "2"
bytes = "1"
futures-util = "0.3"
clap = { version = "4", features = ["derive", "env"] }
serde = "1"
jsonc-parser = { version = "=0.34.0", features = ["serde"] }
tracing = "0.1"
tracing-subscriber = "0.3"
anyhow = "1"

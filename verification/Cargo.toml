[package]
name = "zip_zap_zop"
version = "0.1.0"
edition = "2021"
publish = false

[dependencies]
anyhow = "1"
arcstr = { version = "=1.2.0", features = ["serde"] }
fastwebsockets = { version = "=0.10.0", features = ["unstable-split", "upgrade"] }
http-body-util = "0.1"
hyper = { version = "1", features = ["http1", "server"] }
hyper-util = { version = "0.1", features = ["tokio"] }
jiff = { version = "=0.1.29", features = ["serde"] }
rmp-serde = "=1.3.1"
serde = { version = "1", features = ["derive"] }
slab = "=0.4.12"
tokio = { version = "=1.54.1", features = ["io-util", "macros", "net", "rt-multi-thread", "signal", "sync", "time"] }
tracing = "0.1"
tracing-forest = "0.1"
triomphe = "=0.1.17"

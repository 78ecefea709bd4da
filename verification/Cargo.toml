[package]
name = "egresskeeper-core"
version = "0.1.0"
edition = "2021"
publish = false

[dependencies]
uuid = { version = "1", features = ["v4"] }
serde = { version = "1", features = ["derive"] }
thiserror = "2"
tracing = "0.1"
rusqlite = { version = "0.32", features = ["bundled"] }
tokio = { version = "1", features = ["rt", "rt-multi-thread", "net", "sync", "time", "io-util", "macros"] }
hyper = { version = "1", features = ["server", "client", "http1"] }
hyper-util = { version = "0.1", features = ["client-legacy", "http1", "tokio", "server"] }
http-body-util = "0.1"
bytes = "1"

[dev-dependencies]
serde_json = "1"

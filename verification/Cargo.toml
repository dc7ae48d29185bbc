[package]
name = "rbuilder-operator"
version = "0.1.0"
edition = "2021"
publish = false

[dependencies]
alloy-primitives = "*"
time = "0.3"
prometheus = { version = "0.13", default-features = false }
tokio = { version = "1", features = ["rt", "rt-multi-thread", "macros", "net", "sync", "time"] }
tokio-util = "0.7"
tokio-stream = "0.1"
tokio-tungstenite = "*"
tonic = "0.12"
prost = "0.13"
serde = { version = "1", features = ["derive"] }
serde_json = "1"
redis = "*"
thiserror = "1"
eyre = "0.6"
tracing = "0.1"
flume = "0.11"
parking_lot = "0.12"
url = "2"
http = "1"
futures-core = "0.3"
tower = { version = "0.4", features = ["util"] }
ahash = "0.8"
reqwest = { version = "0.12", default-features = false }
serde_with = "3"
lazy_static = "1"
ctor = "0.2"

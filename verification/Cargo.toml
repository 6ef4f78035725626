[package]
name = "node_metrics"
version = "0.1.0"
edition = "2021"
publish = false

[dependencies]
bollard = "0.14"
chan = "0.1"
chan-signal = "0.3"
chrono = "0.4"
fern = "0.6"
futures-util = "0.3"
influxdb = { version = "0.7", features = ["derive"] }
log = "0.4"
lru = "0.7"
serde = { version = "1", features = ["derive"] }
serde-env = "0.1"
tokio = { version = "1", features = ["rt-multi-thread", "macros", "time"] }

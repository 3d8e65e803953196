[package]
name = "parrot"
version = "0.1.0"
edition = "2021"
publish = false

[dependencies]
anyhow = "1"
async-trait = "0.1"
atty = "0.2"
crossbeam-queue = "0.3"
flume = "0.11"
futures = "0.3"
num_cpus = "1"
ringbuf = "0.4"
thiserror = "1"
tokio = { version = "1", features = ["full"] }
tracing = "0.1"
tracing-subscriber = { version = "0.3", features = ["env-filter", "json", "fmt"] }
uuid = { version = "1", features = ["v4"] }

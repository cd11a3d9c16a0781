[package]
name = "timeseries"
version = "0.1.0"
edition = "2021"
publish = false

[dependencies]
async-trait = "=0.1.92"
bytes = "=1.12.1"
slatedb = { version = "=0.13.1", default-features = false }
slatedb-common = "=0.13.1"
tracing = "=0.1.44"
uuid = "=1.29.0"

[dev-dependencies]
slatedb-common = { version = "=0.13.1", features = ["test-util"] }
tempfile = "3"
tokio = { version = "=1.54.1", features = ["rt", "rt-multi-thread", "time"] }

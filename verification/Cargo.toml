[package]
name = "nebula_transport"
version = "0.1.0"
edition = "2021"
publish = false

[dependencies]
fbthrift-git = "=0.0.7"
nebula-fbthrift-graph-v2 = "=0.3.0"
nebula-fbthrift-meta-v1 = "=0.3.0"
nebula-fbthrift-storage-v1 = "=0.3.0"
bytes = "=1.12.1"
anyhow = "=1.0.104"
async-trait = "=0.1.92"
chrono = { version = "=0.4.45", default-features = false, features = ["std"] }
futures-core = "=0.3.34"
futures-x-io = { version = "=0.3.0", features = ["futures_io", "futures_util_io"] }
futures-x-io-timeoutable = { version = "=0.3.2", features = ["futures_io"] }
serde = { version = "=1.0.229", features = ["derive"] }
nebula-fbthrift-graph-v3 = "=0.3.0"
nebula-fbthrift-storage-v3 = "=0.3.0"
bb8 = "*"
mobc = "*"

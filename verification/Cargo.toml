[package]
name = "catenary"
version = "0.1.0"
edition = "2021"
publish = false

[dependencies]
flate2 = "=1.1.10"
prost = "*"
gtfs-realtime = "=0.1.4"
chrono = "=0.4.45"
chrono-tz = "=0.10.4"
zip = { version = "=2.6.1", default-features = false, features = ["deflate"] }
serde = { version = "=1.0.229", features = ["derive"] }
bincode = "=1.3.3"
ahash = "=0.8.12"
compact_str = { version = "=0.8.2", features = ["serde"] }
crossbeam = "=0.8.5"
scc = "=2.4.0"
tokio = { version = "=1.54.1", features = ["full"] }
reqwest = { version = "=0.12.28", default-features = false, features = ["rustls-tls"] }
etcd-client = "=0.9.2"
gtfs-structures = { version = "=0.52.0", default-features = false }
fasthash = "=0.4.0"

[package]
name = "aptos_network"
version = "0.1.0"
edition = "2021"
publish = false

[dependencies]
anyhow = "1"
async-trait = "0.1"
bytes = "1"
dashmap = "5"
futures = "0.3"
hyper = { version = "0.14", default-features = false }
parking_lot = "0.12"
prost = "0.12"
rayon = "1"
serde = { version = "1", features = ["derive"] }
tokio = { version = "1", default-features = false, features = ["sync", "rt", "time"] }
tokio-stream = { version = "0.1", default-features = false }

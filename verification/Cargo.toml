[package]
name = "gw_chain"
version = "0.1.0"
edition = "2021"
publish = false

[dependencies]
sparse-merkle-tree = "=0.5.4"
blake2b-ref = "=0.3.1"
parking_lot = "=0.13.0"
anyhow = "=1.0.104"
clap = "=2.34.0"
num_cpus = "=1.17.0"
tokio = { version = "=1.54.1", features = ["rt-multi-thread"] }
toml = "=0.5.11"
tikv-jemallocator = "*"

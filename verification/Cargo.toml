[package]
name = "kvbench"
version = "0.1.0"
edition = "2021"
publish = false

[dependencies]
anyhow = "=1.0.104"
clap = { version = "=4.6.7", features = ["derive"] }
fnv = "=1.0.7"
heed = "=0.20.5"
histogram = "=0.11.5"
rand = "=0.9.5"
rand_distr = "=0.5.1"
rocksdb = { version = "*", default-features = false, features = ["bindgen-runtime"] }

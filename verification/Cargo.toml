[package]
name = "rt_bench"
version = "0.1.0"
edition = "2021"
publish = false

[dependencies]
rand = "=0.8.8"
tokio = { version = "=1.54.1", features = ["full"] }
compio = { version = "=0.19.2", features = ["runtime", "io-uring", "fs", "net", "io"] }
monoio = "=0.2.4"
core_affinity = "=0.8.3"

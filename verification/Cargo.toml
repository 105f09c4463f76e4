[package]
name = "imputio"
version = "0.1.0"
edition = "2021"
publish = false

[dependencies]
slab = "0.4"
rand = "0.9"
core_affinity = "0.8"
flume = "0.11"
mio = { version = "1", features = ["os-poll", "net", "os-ext"] }
arc-swap = "1"
futures-lite = "2"
tracing = "0.1"
thiserror = "2"
derive_builder = "0.20"

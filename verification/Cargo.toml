[package]
name = "async_local"
version = "0.1.0"
edition = "2021"
publish = false

[dependencies]
tokio = { version = "1", features = ["rt", "rt-multi-thread", "sync", "macros", "time"] }
generativity = "1"
num_cpus = "1"
syn = { version = "2", features = ["full"] }
quote = "1"
proc-macro2 = "1"
linkme = "0.3"
ctor = "0.2"
pin-project = "1"

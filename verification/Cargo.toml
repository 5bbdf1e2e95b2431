[package]
name = "cql_stress"
version = "0.1.0"
edition = "2021"
publish = false

[dependencies]
anyhow = "*"
scylla = "*"
tokio = { version = "*", features = ["rt-multi-thread", "macros"] }
tracing = "*"

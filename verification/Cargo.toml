[package]
name = "datafusion_tpch"
version = "0.1.0"
edition = "2021"
publish = false

[dependencies]
arrow = { version = "=59.3.0", default-features = false }
tpchgen = "=3.0.0"
tpchgen-arrow = "=3.0.0"

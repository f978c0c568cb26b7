[package]
name = "errify_core"
version = "0.1.0"
edition = "2021"
publish = false

[dependencies]
syn = { version = "=2.0.119", features = ["full"] }
proc-macro2 = "=1.0.107"
quote = "=1.0.47"
proc-macro2-diagnostics = "=0.10.1"
anyhow = "=1.0.104"
eyre = "=0.6.14"

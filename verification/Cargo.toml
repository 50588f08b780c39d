[package]
name = "concurrent_jobs"
version = "0.1.0"
edition = "2021"
publish = false

[dependencies]
crossbeam-channel = "=0.5.17"

[dev-dependencies]
crossbeam-utils = "=0.8.23"

[package]
name = "split_evidence"
version = "0.1.0"
edition = "2021"
publish = false

[dependencies]
rust-htslib = { version = "=0.40.2", default-features = false }
clap = "=2.34.0"

[package]
name = "axre"
version = "0.1.0"
edition = "2021"
rust-version = "1.95"
publish = false

[dependencies]
dade = "=0.2.0"
mime = "=0.3.17"
ntex = "=3.10.1"
thiserror = "=2.0.21"

[package]
name = "babe_verify"
version = "0.1.0"
edition = "2021"
publish = false

[dependencies]
anyhow = "1"
derive_more = "0.99"
hyper = "0.14"
serde = { version = "1", features = ["derive"] }
warp = "0.3"

[package]
name = "brug"
version = "0.1.0"
edition = "2021"
publish = false

[dependencies]
async-trait = "0.1"
proc-macro2 = "1"
quote = "1"
syn = { version = "2", features = ["full"] }
tokio = { version = "1", default-features = false, features = ["sync", "rt", "macros"] }

[package]
name = "yadir"
version = "0.1.0"
edition = "2021"
publish = false

[dependencies]
async-trait = "0.1"
proc-macro2 = "1"
quote = "1"
syn = { version = "2", features = ["full"] }

[dev-dependencies]
uuid = { version = "1", features = ["v4"] }

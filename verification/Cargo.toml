[package]
name = "fuzz_core"
version = "0.1.0"
edition = "2021"
publish = false

[dependencies]
hashbrown = "*"
libafl_bolts = "*"
serde = { version = "*", features = ["derive"] }

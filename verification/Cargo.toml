[package]
name = "nova"
version = "0.1.0"
edition = "2021"
publish = false

[dependencies]
tokio = { version = "1", features = ["rt-multi-thread", "macros", "sync", "time"] }
tonic = "0.12"
prost = "0.13"
tokio-stream = { version = "0.1", features = ["sync"] }
async-trait = "0.1"
clap = { version = "4", features = ["derive"] }
dust_dds = "*"

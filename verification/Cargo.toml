[package]
name = "allen"
version = "0.1.0"
edition = "2021"
publish = false

[dependencies]
lazy_static = "1.4"
num-derive = "0.3"
num-traits = "0.2"
serde = { version = "1", features = ["derive"] }
thiserror = "1"

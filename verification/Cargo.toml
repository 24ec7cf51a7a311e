[package]
name = "recordwire"
version = "0.1.0"
edition = "2021"
publish = false

[dependencies]
apache-avro = { version = "*", features = ["zstandard"] }
clap = { version = "*", features = ["derive"] }

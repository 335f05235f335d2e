[package]
name = "braess_experiments"
version = "0.1.0"
edition = "2021"
publish = false

[dependencies]
nohash-hasher = "0.2.0"
clap = { version = "4.6.7", features = ["derive"] }
serde = { version = "1.0.229", features = ["derive"] }
serde_yaml = "0.9.34"
typetag = "0.2.23"
flate2 = "1.1.10"
tracing = "0.1.44"
tracing-appender = "0.2.5"
tracing-subscriber = "0.3.23"
polars = { version = "0.55.2", default-features = false, features = ["lazy", "csv"] }
polars-lazy = "0.55.2"

[package]
name = "futures_mockstream"
version = "0.2.0"
edition = "2021"
publish = false

[dependencies]
futures-core = "0.3"
futures-io = "0.3"
futures-task = "0.3"

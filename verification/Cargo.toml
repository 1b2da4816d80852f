[package]
name = "procplot"
version = "0.1.0"
edition = "2021"
publish = false

[dependencies]
charts = "0.3.0"

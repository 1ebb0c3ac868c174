[package]
name = "cuneiform_fields"
version = "0.1.0"
edition = "2021"
publish = false

[dependencies]
cuneiform = "0.1"

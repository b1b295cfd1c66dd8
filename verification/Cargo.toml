[package]
name = "bincode_derive"
version = "0.1.0"
edition = "2021"
publish = false

[dependencies]
virtue = { version = "=0.0.19", features = ["proc-macro2"] }

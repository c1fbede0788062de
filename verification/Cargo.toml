[package]
name = "statekit"
version = "0.3.0"
edition = "2021"
publish = false

[dependencies]
thiserror = "2"

[package]
name = "event_chain"
version = "0.1.0"
edition = "2021"
publish = false

[dependencies]
async-trait = "*"
error-stack = "*"
thiserror = "*"

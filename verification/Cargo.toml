[package]
name = "inventory"
version = "0.1.0"
edition = "2021"
publish = false

[dependencies]
redis-module = "1.0"

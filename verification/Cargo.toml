[package]
name = "non_static_any"
version = "0.1.0"
edition = "2021"
publish = false

[dependencies]
typeid = "1"

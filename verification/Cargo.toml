[package]
name = "switch"
version = "0.1.0"
edition = "2021"
publish = false

[dependencies]
dioxus-lib = "0.6"

[package]
name = "leicester"
version = "0.1.0"
edition = "2021"
publish = false

[dependencies]
rust-iptables = "*"

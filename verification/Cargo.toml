[package]
name = "adapton-lab"
version = "0.1.0"
edition = "2021"
publish = false

[dependencies]
adapton = "*"
rand = "0.3"
time = "0.1"
csv = "0.14"
rustc-serialize = "0.3"

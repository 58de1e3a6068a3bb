[package]
name = "slime_garden"
version = "0.1.0"
edition = "2021"
publish = false

[dependencies]
rand = "0.8"
itertools = "0.10"

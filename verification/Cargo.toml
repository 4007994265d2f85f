[package]
name = "feel_it_still"
version = "0.1.0"
edition = "2021"
publish = false

[dependencies]
rand = "*"
elapsed = "*"

[package]
name = "twelve_et"
version = "0.1.0"
edition = "2021"
publish = false

[dependencies]
hound = "3"

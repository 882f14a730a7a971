[package]
name = "benchrank"
version = "0.1.0"
edition = "2021"
publish = false

[dependencies]
decorum = "=0.4.0"

[package]
name = "propensity_score"
version = "0.1.0"
edition = "2021"
publish = false

[dependencies]
csv = "*"

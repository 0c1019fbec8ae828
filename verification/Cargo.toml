[package]
name = "ic6502"
version = "0.1.0"
edition = "2021"
publish = false

[dependencies]
rayon = "*"
serde = "*"
serde_derive = "*"
serde_json = "*"

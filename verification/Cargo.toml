[package]
name = "bonding_curve"
version = "0.1.0"
edition = "2021"
publish = false

[dependencies]
sp-runtime = "=42.0.0"
orml-traits = "=1.5.0"
frame-support = "=41.0.2"

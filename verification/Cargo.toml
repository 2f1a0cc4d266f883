[package]
name = "gyrii_core"
version = "0.1.0"
edition = "2021"
publish = false

[dependencies]
parry3d = "0.17"
nalgebra = "0.33"

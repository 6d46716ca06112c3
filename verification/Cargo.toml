[package]
name = "pasture_core"
version = "0.1.0"
edition = "2021"
publish = false

[dependencies]
anyhow = "1"
clap = "2"
itertools = "0.10"
nalgebra = "*"
static_assertions = "1.1"

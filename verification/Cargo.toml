[package]
name = "cargo_gen"
version = "0.1.0"
edition = "2021"
publish = false

[dependencies]
clap = "2.34"
tempdir = "0.3"
yaml-rust = "0.4"
